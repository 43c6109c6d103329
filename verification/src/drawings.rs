//! Electrical line diagrams: classifies a room's placed equipment against
//! the catalog and derives the signal connections between video sources and
//! displays, audio sources and outputs, and control devices.

use vstd::prelude::*;

use crate::text::str_eq;

verus! {

broadcast use vstd::string::group_string_axioms;

/// Equipment categories.
#[derive(Debug, Clone, Copy, PartialEq, Eq, Structural)]
pub enum EquipmentCategory {
    Video,
    Audio,
    Control,
    Infrastructure,
}

/// How a piece of equipment is mounted.
#[derive(Debug, Clone, Copy, PartialEq, Eq, Structural)]
pub enum MountType {
    Floor,
    Wall,
    Ceiling,
    Rack,
}

/// Kinds of diagram elements.
#[derive(Debug, Clone, Copy, PartialEq, Eq, Structural)]
pub enum ElementType {
    Equipment,
    Cable,
    Text,
    Dimension,
    Symbol,
}

/// Kinds of signals a connection carries.
#[derive(Debug, Clone, Copy, PartialEq, Eq, Structural)]
pub enum SignalType {
    Video,
    Audio,
    Control,
    Power,
    Network,
}

/// A catalog entry, as the diagram logic reads it.
#[derive(Debug, Clone)]
pub struct EquipmentInput {
    pub id: String,
    pub manufacturer: String,
    pub model: String,
    pub category: EquipmentCategory,
    pub subcategory: String,
}

/// Mathematical image of an [`EquipmentInput`].
#[verifier::ext_equal]
pub ghost struct EquipmentInputView {
    pub id: Seq<char>,
    pub manufacturer: Seq<char>,
    pub model: Seq<char>,
    pub category: EquipmentCategory,
    pub subcategory: Seq<char>,
}

impl View for EquipmentInput {
    type V = EquipmentInputView;

    open spec fn view(&self) -> EquipmentInputView {
        EquipmentInputView {
            id: self.id@,
            manufacturer: self.manufacturer@,
            model: self.model@,
            category: self.category,
            subcategory: self.subcategory@,
        }
    }
}

impl DeepView for EquipmentInput {
    type V = EquipmentInputView;

    open spec fn deep_view(&self) -> EquipmentInputView {
        self.view()
    }
}

/// A placed piece of equipment: the identity the signal analysis reads.
/// Its coordinates stay with the caller, which owns the geometry.
#[derive(Debug, Clone)]
pub struct PlacedEquipment {
    pub id: String,
    pub equipment_id: String,
    pub mount_type: MountType,
}

/// Mathematical image of a [`PlacedEquipment`].
#[verifier::ext_equal]
pub ghost struct PlacedEquipmentView {
    pub id: Seq<char>,
    pub equipment_id: Seq<char>,
    pub mount_type: MountType,
}

impl View for PlacedEquipment {
    type V = PlacedEquipmentView;

    open spec fn view(&self) -> PlacedEquipmentView {
        PlacedEquipmentView {
            id: self.id@,
            equipment_id: self.equipment_id@,
            mount_type: self.mount_type,
        }
    }
}

impl DeepView for PlacedEquipment {
    type V = PlacedEquipmentView;

    open spec fn deep_view(&self) -> PlacedEquipmentView {
        self.view()
    }
}

/// A signal connection between two pieces of equipment.
#[derive(Debug, Clone)]
pub struct SignalConnection {
    pub id: String,
    pub from_equipment_id: String,
    pub to_equipment_id: String,
    pub signal_type: SignalType,
    pub cable_type: String,
}

/// Mathematical image of a [`SignalConnection`].
#[verifier::ext_equal]
pub ghost struct SignalConnectionView {
    pub id: Seq<char>,
    pub from_equipment_id: Seq<char>,
    pub to_equipment_id: Seq<char>,
    pub signal_type: SignalType,
    pub cable_type: Seq<char>,
}

impl View for SignalConnection {
    type V = SignalConnectionView;

    open spec fn view(&self) -> SignalConnectionView {
        SignalConnectionView {
            id: self.id@,
            from_equipment_id: self.from_equipment_id@,
            to_equipment_id: self.to_equipment_id@,
            signal_type: self.signal_type,
            cable_type: self.cable_type@,
        }
    }
}

impl DeepView for SignalConnection {
    type V = SignalConnectionView;

    open spec fn deep_view(&self) -> SignalConnectionView {
        self.view()
    }
}

/// The first catalog entry carrying the given id.
pub open spec fn find_equipment(catalog: Seq<EquipmentInputView>, id: Seq<char>) -> Option<
    EquipmentInputView,
>
    decreases catalog.len(),
{
    if catalog.len() == 0 {
        None
    } else if catalog[0].id == id {
        Some(catalog[0])
    } else {
        find_equipment(catalog.drop_first(), id)
    }
}

pub open spec fn is_video_source(p: PlacedEquipmentView, catalog: Seq<EquipmentInputView>) -> bool {
    match find_equipment(catalog, p.equipment_id) {
        Some(e) => e.category is Video && (e.subcategory == "cameras"@ || e.subcategory
            == "codecs"@),
        None => false,
    }
}

pub open spec fn is_video_display(p: PlacedEquipmentView, catalog: Seq<EquipmentInputView>) -> bool {
    match find_equipment(catalog, p.equipment_id) {
        Some(e) => e.category is Video && e.subcategory == "displays"@,
        None => false,
    }
}

pub open spec fn is_audio_source(p: PlacedEquipmentView, catalog: Seq<EquipmentInputView>) -> bool {
    match find_equipment(catalog, p.equipment_id) {
        Some(e) => e.category is Audio && e.subcategory == "microphones"@,
        None => false,
    }
}

pub open spec fn is_audio_output(p: PlacedEquipmentView, catalog: Seq<EquipmentInputView>) -> bool {
    match find_equipment(catalog, p.equipment_id) {
        Some(e) => e.category is Audio && (e.subcategory == "speakers"@ || e.subcategory
            == "amplifiers"@),
        None => false,
    }
}

pub open spec fn is_control_device(p: PlacedEquipmentView, catalog: Seq<EquipmentInputView>) -> bool {
    match find_equipment(catalog, p.equipment_id) {
        Some(e) => e.category is Control,
        None => false,
    }
}

/// The video sources among the first `n` placed items, in order.
pub open spec fn video_sources_upto(
    placed: Seq<PlacedEquipmentView>,
    catalog: Seq<EquipmentInputView>,
    n: int,
) -> Seq<PlacedEquipmentView>
    decreases n,
{
    if n <= 0 {
        Seq::empty()
    } else {
        let prev = video_sources_upto(placed, catalog, n - 1);
        if is_video_source(placed[n - 1], catalog) {
            prev.push(placed[n - 1])
        } else {
            prev
        }
    }
}

/// The video displays among the first `n` placed items, in order.
pub open spec fn video_displays_upto(
    placed: Seq<PlacedEquipmentView>,
    catalog: Seq<EquipmentInputView>,
    n: int,
) -> Seq<PlacedEquipmentView>
    decreases n,
{
    if n <= 0 {
        Seq::empty()
    } else {
        let prev = video_displays_upto(placed, catalog, n - 1);
        if is_video_display(placed[n - 1], catalog) {
            prev.push(placed[n - 1])
        } else {
            prev
        }
    }
}

/// The audio sources among the first `n` placed items, in order.
pub open spec fn audio_sources_upto(
    placed: Seq<PlacedEquipmentView>,
    catalog: Seq<EquipmentInputView>,
    n: int,
) -> Seq<PlacedEquipmentView>
    decreases n,
{
    if n <= 0 {
        Seq::empty()
    } else {
        let prev = audio_sources_upto(placed, catalog, n - 1);
        if is_audio_source(placed[n - 1], catalog) {
            prev.push(placed[n - 1])
        } else {
            prev
        }
    }
}

/// The audio outputs among the first `n` placed items, in order.
pub open spec fn audio_outputs_upto(
    placed: Seq<PlacedEquipmentView>,
    catalog: Seq<EquipmentInputView>,
    n: int,
) -> Seq<PlacedEquipmentView>
    decreases n,
{
    if n <= 0 {
        Seq::empty()
    } else {
        let prev = audio_outputs_upto(placed, catalog, n - 1);
        if is_audio_output(placed[n - 1], catalog) {
            prev.push(placed[n - 1])
        } else {
            prev
        }
    }
}

/// The control devices among the first `n` placed items, in order.
pub open spec fn control_devices_upto(
    placed: Seq<PlacedEquipmentView>,
    catalog: Seq<EquipmentInputView>,
    n: int,
) -> Seq<PlacedEquipmentView>
    decreases n,
{
    if n <= 0 {
        Seq::empty()
    } else {
        let prev = control_devices_upto(placed, catalog, n - 1);
        if is_control_device(placed[n - 1], catalog) {
            prev.push(placed[n - 1])
        } else {
            prev
        }
    }
}

/// The cable a video source uses, by its position among the video sources.
pub open spec fn spec_cable_for_index(i: int) -> Seq<char> {
    if i == 0 {
        "HDMI"@
    } else if i == 1 {
        "DisplayPort"@
    } else {
        "SDI"@
    }
}

/// The video connection from source `s` (at source index `idx`) to display
/// `d`.
pub open spec fn video_conn(
    s: PlacedEquipmentView,
    d: PlacedEquipmentView,
    idx: int,
) -> SignalConnectionView {
    SignalConnectionView {
        id: "conn-video-"@ + s.id + "-"@ + d.id,
        from_equipment_id: s.equipment_id,
        to_equipment_id: d.equipment_id,
        signal_type: SignalType::Video,
        cable_type: spec_cable_for_index(idx),
    }
}

/// Video connections from the first `n` sources, each to every display.
pub open spec fn video_conns_upto(
    sources: Seq<PlacedEquipmentView>,
    displays: Seq<PlacedEquipmentView>,
    n: int,
) -> Seq<SignalConnectionView>
    decreases n,
{
    if n <= 0 {
        Seq::empty()
    } else {
        video_conns_upto(sources, displays, n - 1) + Seq::new(
            displays.len(),
            |j: int| video_conn(sources[n - 1], displays[j], n - 1),
        )
    }
}

/// The audio connection from source `s` to output `d`, always over XLR.
pub open spec fn audio_conn(s: PlacedEquipmentView, d: PlacedEquipmentView) -> SignalConnectionView {
    SignalConnectionView {
        id: "conn-audio-"@ + s.id + "-"@ + d.id,
        from_equipment_id: s.equipment_id,
        to_equipment_id: d.equipment_id,
        signal_type: SignalType::Audio,
        cable_type: "XLR"@,
    }
}

/// Audio connections from the first `n` sources, each to every output.
pub open spec fn audio_conns_upto(
    sources: Seq<PlacedEquipmentView>,
    outputs: Seq<PlacedEquipmentView>,
    n: int,
) -> Seq<SignalConnectionView>
    decreases n,
{
    if n <= 0 {
        Seq::empty()
    } else {
        audio_conns_upto(sources, outputs, n - 1) + Seq::new(
            outputs.len(),
            |j: int| audio_conn(sources[n - 1], outputs[j]),
        )
    }
}

/// The control connection from device `c` to placed item `p`, over Cat6.
pub open spec fn control_conn(
    c: PlacedEquipmentView,
    p: PlacedEquipmentView,
) -> SignalConnectionView {
    SignalConnectionView {
        id: "conn-ctrl-"@ + c.id + "-"@ + p.id,
        from_equipment_id: c.equipment_id,
        to_equipment_id: p.equipment_id,
        signal_type: SignalType::Control,
        cable_type: "Cat6"@,
    }
}

/// Control connections from device `c` to the first `m` placed items,
/// skipping the device itself.
pub open spec fn control_conns_for(
    c: PlacedEquipmentView,
    placed: Seq<PlacedEquipmentView>,
    m: int,
) -> Seq<SignalConnectionView>
    decreases m,
{
    if m <= 0 {
        Seq::empty()
    } else {
        let prev = control_conns_for(c, placed, m - 1);
        if placed[m - 1].id != c.id {
            prev.push(control_conn(c, placed[m - 1]))
        } else {
            prev
        }
    }
}

/// Control connections from the first `n` control devices.
pub open spec fn control_conns_upto(
    controls: Seq<PlacedEquipmentView>,
    placed: Seq<PlacedEquipmentView>,
    n: int,
) -> Seq<SignalConnectionView>
    decreases n,
{
    if n <= 0 {
        Seq::empty()
    } else {
        control_conns_upto(controls, placed, n - 1) + control_conns_for(
            controls[n - 1],
            placed,
            placed.len() as int,
        )
    }
}

/// Every connection the analysis owes: video, then audio, then control.
pub open spec fn spec_signal_connections(
    placed: Seq<PlacedEquipmentView>,
    catalog: Seq<EquipmentInputView>,
) -> Seq<SignalConnectionView> {
    let n = placed.len() as int;
    let vs = video_sources_upto(placed, catalog, n);
    let vd = video_displays_upto(placed, catalog, n);
    let au = audio_sources_upto(placed, catalog, n);
    let ao = audio_outputs_upto(placed, catalog, n);
    let cd = control_devices_upto(placed, catalog, n);
    video_conns_upto(vs, vd, vs.len() as int) + audio_conns_upto(au, ao, au.len() as int)
        + control_conns_upto(cd, placed, cd.len() as int)
}

/// `idx` lists, in order, the positions in `placed` of exactly the items of
/// `bucket`.
pub open spec fn indexes_bucket(
    idx: Seq<usize>,
    placed: Seq<PlacedEquipmentView>,
    bucket: Seq<PlacedEquipmentView>,
) -> bool {
    &&& idx.len() == bucket.len()
    &&& forall|t: int|
        0 <= t < idx.len() ==> (#[trigger] idx[t]) < placed.len() && placed[idx[t] as int]
            == bucket[t]
}

/// Scanning past non-matching catalog entries does not change the first
/// match.
proof fn lemma_find_equipment_skip(catalog: Seq<EquipmentInputView>, id: Seq<char>, i: int)
    requires
        0 <= i <= catalog.len(),
        forall|k: int| 0 <= k < i ==> #[trigger] catalog[k].id != id,
    ensures
        find_equipment(catalog, id) == find_equipment(
            catalog.subrange(i, catalog.len() as int),
            id,
        ),
    decreases i,
{
    if i == 0 {
        assert(catalog.subrange(0, catalog.len() as int) =~= catalog);
    } else {
        assert(catalog.len() > 0);
        assert(catalog[0].id != id);
        let rest = catalog.subrange(1, catalog.len() as int);
        assert(catalog.drop_first() =~= rest);
        assert(find_equipment(catalog, id) == find_equipment(rest, id));
        assert(forall|k: int| 0 <= k < i - 1 ==> #[trigger] rest[k].id != id);
        lemma_find_equipment_skip(rest, id, i - 1);
        assert(rest.subrange(i - 1, rest.len() as int) =~= catalog.subrange(
            i,
            catalog.len() as int,
        ));
    }
}

/// Index of the first catalog entry carrying `id`.
fn find_equipment_index(catalog: &Vec<EquipmentInput>, id: &String) -> (r: Option<usize>)
    ensures
        match r {
            Some(i) => i < catalog.len() && find_equipment(catalog.deep_view(), id@) == Some(
                catalog.deep_view()[i as int],
            ),
            None => find_equipment(catalog.deep_view(), id@) is None,
        },
{
    let ghost cv = catalog.deep_view();
    for i in 0..catalog.len()
        invariant
            cv == catalog.deep_view(),
            forall|k: int| 0 <= k < i ==> #[trigger] cv[k].id != id@,
    {
        proof {
            assert(cv[i as int] == catalog@[i as int]@);
        }
        if str_eq(catalog[i].id.as_str(), id.as_str()) {
            proof {
                lemma_find_equipment_skip(cv, id@, i as int);
                assert(cv.subrange(i as int, cv.len() as int)[0] == cv[i as int]);
            }
            return Some(i);
        }
    }
    proof {
        lemma_find_equipment_skip(cv, id@, cv.len() as int);
    }
    None
}

/// Determines the video cable type from the source's position: the first
/// source uses HDMI, the second DisplayPort, later ones SDI.
pub fn determine_video_cable_type(index: usize) -> (r: String)
    ensures
        r@ == spec_cable_for_index(index as int),
{
    if index == 0 {
        String::from_str("HDMI")
    } else if index == 1 {
        String::from_str("DisplayPort")
    } else {
        String::from_str("SDI")
    }
}

/// The label a diagram element carries for a placed item.
pub open spec fn spec_label(catalog: Seq<EquipmentInputView>, equipment_id: Seq<char>) -> Seq<
    char,
> {
    match find_equipment(catalog, equipment_id) {
        Some(e) => e.manufacturer + " "@ + e.model,
        None => "Unknown Equipment ("@ + equipment_id + ")"@,
    }
}

/// Sorts the placed items into the five buckets the routing rules use,
/// each bucket held as positions into `placed`.
fn classify_equipment(placed: &Vec<PlacedEquipment>, catalog: &Vec<EquipmentInput>) -> (r: (
    Vec<usize>,
    Vec<usize>,
    Vec<usize>,
    Vec<usize>,
    Vec<usize>,
))
    ensures
        ({
            let pv = placed.deep_view();
            let cv = catalog.deep_view();
            let n = pv.len() as int;
            &&& indexes_bucket(r.0@, pv, video_sources_upto(pv, cv, n))
            &&& indexes_bucket(r.1@, pv, video_displays_upto(pv, cv, n))
            &&& indexes_bucket(r.2@, pv, audio_sources_upto(pv, cv, n))
            &&& indexes_bucket(r.3@, pv, audio_outputs_upto(pv, cv, n))
            &&& indexes_bucket(r.4@, pv, control_devices_upto(pv, cv, n))
        }),
{
    let ghost pv = placed.deep_view();
    let ghost cv = catalog.deep_view();
    let mut vid_src: Vec<usize> = Vec::new();
    let mut vid_dsp: Vec<usize> = Vec::new();
    let mut aud_src: Vec<usize> = Vec::new();
    let mut aud_out: Vec<usize> = Vec::new();
    let mut ctrl: Vec<usize> = Vec::new();
    for k in 0..placed.len()
        invariant
            pv == placed.deep_view(),
            cv == catalog.deep_view(),
            indexes_bucket(vid_src@, pv, video_sources_upto(pv, cv, k as int)),
            indexes_bucket(vid_dsp@, pv, video_displays_upto(pv, cv, k as int)),
            indexes_bucket(aud_src@, pv, audio_sources_upto(pv, cv, k as int)),
            indexes_bucket(aud_out@, pv, audio_outputs_upto(pv, cv, k as int)),
            indexes_bucket(ctrl@, pv, control_devices_upto(pv, cv, k as int)),
    {
        proof {
            assert(pv[k as int] == placed@[k as int]@);
            reveal_strlit("cameras");
            reveal_strlit("codecs");
            reveal_strlit("displays");
            reveal_strlit("microphones");
            reveal_strlit("speakers");
            reveal_strlit("amplifiers");
            // the subcategory words differ pairwise already by length
            assert("cameras"@.len() == 7);
            assert("codecs"@.len() == 6);
            assert("displays"@.len() == 8);
            assert("microphones"@.len() == 11);
            assert("speakers"@.len() == 8);
            assert("amplifiers"@.len() == 10);
        }
        let item = &placed[k];
        match find_equipment_index(catalog, &item.equipment_id) {
            Some(ei) => {
                let entry = &catalog[ei];
                match entry.category {
                    EquipmentCategory::Video => {
                        if str_eq(entry.subcategory.as_str(), "cameras") || str_eq(
                            entry.subcategory.as_str(),
                            "codecs",
                        ) {
                            vid_src.push(k);
                        } else if str_eq(entry.subcategory.as_str(), "displays") {
                            vid_dsp.push(k);
                        }
                    },
                    EquipmentCategory::Audio => {
                        if str_eq(entry.subcategory.as_str(), "microphones") {
                            aud_src.push(k);
                        } else if str_eq(entry.subcategory.as_str(), "speakers") || str_eq(
                            entry.subcategory.as_str(),
                            "amplifiers",
                        ) {
                            aud_out.push(k);
                        }
                    },
                    EquipmentCategory::Control => {
                        ctrl.push(k);
                    },
                    EquipmentCategory::Infrastructure => {},
                }
            },
            None => {},
        }
    }
    (vid_src, vid_dsp, aud_src, aud_out, ctrl)
}

/// Analyzes signal flow between the placed equipment: every video source
/// feeds every display (the cable depending on the source's position),
/// every audio source feeds every audio output over XLR, and every control
/// device reaches every other placed item over Cat6.
pub fn analyze_signal_flow(
    placed_equipment: &Vec<PlacedEquipment>,
    equipment_catalog: &Vec<EquipmentInput>,
) -> (r: Vec<SignalConnection>)
    ensures
        r.deep_view() == spec_signal_connections(
            placed_equipment.deep_view(),
            equipment_catalog.deep_view(),
        ),
{
    let ghost pv = placed_equipment.deep_view();
    let ghost cv = equipment_catalog.deep_view();
    let ghost n = pv.len() as int;
    let ghost vs = video_sources_upto(pv, cv, n);
    let ghost vd = video_displays_upto(pv, cv, n);
    let ghost au = audio_sources_upto(pv, cv, n);
    let ghost ao = audio_outputs_upto(pv, cv, n);
    let ghost cd = control_devices_upto(pv, cv, n);
    let (vid_src, vid_dsp, aud_src, aud_out, ctrl) = classify_equipment(
        placed_equipment,
        equipment_catalog,
    );
    let mut out: Vec<SignalConnection> = Vec::new();
    // video: each source, in order, to every display
    for si in 0..vid_src.len()
        invariant
            pv == placed_equipment.deep_view(),
            vs == video_sources_upto(pv, cv, n),
            vd == video_displays_upto(pv, cv, n),
            indexes_bucket(vid_src@, pv, vs),
            indexes_bucket(vid_dsp@, pv, vd),
            out.deep_view() == video_conns_upto(vs, vd, si as int),
    {
        for dj in 0..vid_dsp.len()
            invariant
                pv == placed_equipment.deep_view(),
                vs == video_sources_upto(pv, cv, n),
                vd == video_displays_upto(pv, cv, n),
                indexes_bucket(vid_src@, pv, vs),
                indexes_bucket(vid_dsp@, pv, vd),
                si < vid_src.len(),
                out.deep_view() =~~= video_conns_upto(vs, vd, si as int) + Seq::new(
                    dj as nat,
                    |j: int| video_conn(vs[si as int], vd[j], si as int),
                ),
        {
            let sp = &placed_equipment[vid_src[si]];
            let dp = &placed_equipment[vid_dsp[dj]];
            proof {
                assert(sp@ == vs[si as int]);
                assert(dp@ == vd[dj as int]);
            }
            let mut ident = String::from_str("conn-video-");
            ident.append(sp.id.as_str());
            ident.append("-");
            ident.append(dp.id.as_str());
            let conn = SignalConnection {
                id: ident,
                from_equipment_id: sp.equipment_id.clone(),
                to_equipment_id: dp.equipment_id.clone(),
                signal_type: SignalType::Video,
                cable_type: determine_video_cable_type(si),
            };
            let ghost cview = conn@;
            proof {
                assert(cview =~~= video_conn(vs[si as int], vd[dj as int], si as int));
            }
            let ghost prev = out.deep_view();
            out.push(conn);
            proof {
                assert(out.deep_view() =~~= prev.push(cview));
                assert(out.deep_view() =~~= video_conns_upto(vs, vd, si as int) + Seq::new(
                    (dj + 1) as nat,
                    |j: int| video_conn(vs[si as int], vd[j], si as int),
                ));
            }
        }
        proof {
            assert(video_conns_upto(vs, vd, si + 1) =~~= video_conns_upto(vs, vd, si as int)
                + Seq::new(vd.len(), |j: int| video_conn(vs[si as int], vd[j], si as int)));
            assert(out.deep_view() =~~= video_conns_upto(vs, vd, si + 1));
        }
    }
    let ghost video_all = video_conns_upto(vs, vd, vs.len() as int);
    proof {
        assert(out.deep_view() == video_all);
    }
    // audio: each source to every output
    for si in 0..aud_src.len()
        invariant
            pv == placed_equipment.deep_view(),
            au == audio_sources_upto(pv, cv, n),
            ao == audio_outputs_upto(pv, cv, n),
            indexes_bucket(aud_src@, pv, au),
            indexes_bucket(aud_out@, pv, ao),
            out.deep_view() == video_all + audio_conns_upto(au, ao, si as int),
    {
        for dj in 0..aud_out.len()
            invariant
                pv == placed_equipment.deep_view(),
                au == audio_sources_upto(pv, cv, n),
                ao == audio_outputs_upto(pv, cv, n),
                indexes_bucket(aud_src@, pv, au),
                indexes_bucket(aud_out@, pv, ao),
                si < aud_src.len(),
                out.deep_view() =~~= video_all + audio_conns_upto(au, ao, si as int) + Seq::new(
                    dj as nat,
                    |j: int| audio_conn(au[si as int], ao[j]),
                ),
        {
            let sp = &placed_equipment[aud_src[si]];
            let dp = &placed_equipment[aud_out[dj]];
            proof {
                assert(sp@ == au[si as int]);
                assert(dp@ == ao[dj as int]);
            }
            let mut ident = String::from_str("conn-audio-");
            ident.append(sp.id.as_str());
            ident.append("-");
            ident.append(dp.id.as_str());
            let conn = SignalConnection {
                id: ident,
                from_equipment_id: sp.equipment_id.clone(),
                to_equipment_id: dp.equipment_id.clone(),
                signal_type: SignalType::Audio,
                cable_type: String::from_str("XLR"),
            };
            let ghost cview = conn@;
            proof {
                assert(cview =~~= audio_conn(au[si as int], ao[dj as int]));
            }
            let ghost prev = out.deep_view();
            out.push(conn);
            proof {
                assert(out.deep_view() =~~= prev.push(cview));
                assert(out.deep_view() =~~= video_all + audio_conns_upto(au, ao, si as int)
                    + Seq::new((dj + 1) as nat, |j: int| audio_conn(au[si as int], ao[j])));
            }
        }
        proof {
            assert(audio_conns_upto(au, ao, si + 1) =~~= audio_conns_upto(au, ao, si as int)
                + Seq::new(ao.len(), |j: int| audio_conn(au[si as int], ao[j])));
            assert(out.deep_view() =~~= video_all + audio_conns_upto(au, ao, si + 1));
        }
    }
    let ghost base = video_all + audio_conns_upto(au, ao, au.len() as int);
    proof {
        assert(out.deep_view() == base);
    }
    // control: each device to every other placed item
    for ci in 0..ctrl.len()
        invariant
            pv == placed_equipment.deep_view(),
            cd == control_devices_upto(pv, cv, n),
            indexes_bucket(ctrl@, pv, cd),
            out.deep_view() == base + control_conns_upto(cd, pv, ci as int),
    {
        for k in 0..placed_equipment.len()
            invariant
                pv == placed_equipment.deep_view(),
                cd == control_devices_upto(pv, cv, n),
                indexes_bucket(ctrl@, pv, cd),
                ci < ctrl.len(),
                out.deep_view() =~~= base + control_conns_upto(cd, pv, ci as int)
                    + control_conns_for(cd[ci as int], pv, k as int),
        {
            let cp = &placed_equipment[ctrl[ci]];
            let p = &placed_equipment[k];
            proof {
                assert(cp@ == cd[ci as int]);
                assert(p@ == pv[k as int]);
            }
            if !str_eq(p.id.as_str(), cp.id.as_str()) {
                let mut ident = String::from_str("conn-ctrl-");
                ident.append(cp.id.as_str());
                ident.append("-");
                ident.append(p.id.as_str());
                let conn = SignalConnection {
                    id: ident,
                    from_equipment_id: cp.equipment_id.clone(),
                    to_equipment_id: p.equipment_id.clone(),
                    signal_type: SignalType::Control,
                    cable_type: String::from_str("Cat6"),
                };
                let ghost cview = conn@;
                proof {
                    assert(cview =~~= control_conn(cd[ci as int], pv[k as int]));
                }
                let ghost prev = out.deep_view();
                out.push(conn);
                proof {
                    assert(out.deep_view() =~~= prev.push(cview));
                    assert(out.deep_view() =~~= base + control_conns_upto(cd, pv, ci as int)
                        + control_conns_for(cd[ci as int], pv, k + 1));
                }
            } else {
                proof {
                    assert(control_conns_for(cd[ci as int], pv, k + 1) == control_conns_for(
                        cd[ci as int],
                        pv,
                        k as int,
                    ));
                }
            }
        }
        proof {
            assert(out.deep_view() =~~= base + control_conns_upto(cd, pv, ci + 1));
        }
    }
    proof {
        assert(out.deep_view() =~~= spec_signal_connections(pv, cv));
    }
    out
}

/// Builds the element label for a placed item: manufacturer and model when
/// the catalog knows the equipment, a marked placeholder otherwise.
pub fn equipment_label(equipment_catalog: &Vec<EquipmentInput>, equipment_id: &String) -> (r:
    String)
    ensures
        r@ == spec_label(equipment_catalog.deep_view(), equipment_id@),
{
    match find_equipment_index(equipment_catalog, equipment_id) {
        Some(i) => {
            let mut m = equipment_catalog[i].manufacturer.clone();
            m.append(" ");
            m.append(equipment_catalog[i].model.as_str());
            m
        },
        None => {
            let mut m = String::from_str("Unknown Equipment (");
            m.append(equipment_id.as_str());
            m.append(")");
            m
        },
    }
}

} // verus!
