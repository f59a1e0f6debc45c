//! The decoder: a single forward pass over the byte stream that tokenizes
//! markup, tracks the open-element path, and routes text to the field the
//! currently open tag names, exactly as `spec_decode` describes.
use vstd::prelude::*;
use crate::model::{
    data_views, default_info_s, default_survey_s, rc_views, station_type_ok, CaveError, CaveFile,
    CaveFileInfo, CaveFileInfoS, CaveFileS, RadiusVectorS, SurveyData, SurveyDataS, ShapeS, dup,
};
use crate::names as nm;
use crate::text::{
    bytes_eq, copy_range, find_byte, find_from, is_ws, parse_i32, parse_i32_bytes, trim_ws,
    trimmed_range, unescape, unescape_bytes, ws_byte,
};

verus! {

/// One markup event: an element opens, an element closes, or a non-empty
/// text node appears (already trimmed and unescaped).
pub ghost enum Ev {
    Start(Seq<u8>),
    End(Seq<u8>),
    Text(Seq<u8>),
}

/// The index of the first whitespace byte at or after `i`, or the length.
pub open spec fn name_end(t: Seq<u8>, i: int) -> int
    decreases t.len() - i when 0 <= i
{
    if i >= t.len() {
        t.len() as int
    } else if is_ws(t[i]) {
        i
    } else {
        name_end(t, i + 1)
    }
}

/// A tag's name: the bytes up to the first whitespace, so that attributes
/// after the name are ignored.
pub open spec fn name_of(t: Seq<u8>) -> Seq<u8> {
    t.take(name_end(t, 0))
}

pub open spec fn cons_ev(ev: Ev, rest: Option<Seq<Ev>>) -> Option<Seq<Ev>> {
    match rest {
        None => None,
        Some(t) => Some(seq![ev] + t),
    }
}

/// Tokenizes the byte stream from position `i` on. A `<` opens markup read
/// to the next `>`: declarations and comments are skipped, `</`... is an
/// end tag, a trailing `/` makes a start tag self-closing. Bytes between
/// markup are a text node, trimmed; whitespace-only text is dropped; an
/// unresolvable entity or an unterminated tag is malformed.
pub open spec fn lex_from(s: Seq<u8>, i: int) -> Option<Seq<Ev>>
    decreases s.len() - i when 0 <= i
{
    if i >= s.len() {
        Some(Seq::empty())
    } else if s[i] == 60 {
        match find_from(s, i + 1, 62) {
            None => None,
            Some(j) => {
                if !(i < j < s.len()) {
                    None
                } else {
                    let inner = s.subrange(i + 1, j);
                    if inner.len() == 0 {
                        None
                    } else if inner[0] == 63 || inner[0] == 33 {
                        lex_from(s, j + 1)
                    } else if inner[0] == 47 {
                        cons_ev(Ev::End(name_of(inner.skip(1))), lex_from(s, j + 1))
                    } else if inner[inner.len() - 1] == 47 {
                        let n = name_of(inner.take(inner.len() - 1));
                        if n.len() == 0 {
                            None
                        } else {
                            match lex_from(s, j + 1) {
                                None => None,
                                Some(t) => Some(seq![Ev::Start(n), Ev::End(n)] + t),
                            }
                        }
                    } else {
                        let n = name_of(inner);
                        if n.len() == 0 {
                            None
                        } else {
                            cons_ev(Ev::Start(n), lex_from(s, j + 1))
                        }
                    }
                }
            },
        }
    } else {
        let j = match find_from(s, i, 60) {
            None => s.len() as int,
            Some(j) => j,
        };
        if !(i < j <= s.len()) {
            None
        } else {
            let t = trim_ws(s.subrange(i, j));
            if t.len() == 0 {
                lex_from(s, j)
            } else {
                match unescape(t) {
                    None => None,
                    Some(u) => cons_ev(Ev::Text(u), lex_from(s, j)),
                }
            }
        }
    }
}

/// The decoder states: outside any record, inside an `SRVD` element,
/// inside its `SH` shape, inside the `RC` collection, inside one `RV`.
#[derive(Debug, Clone, Copy, PartialEq, Eq, Structural)]
pub enum Ctx {
    Outside,
    InRecord,
    InShape,
    InRc,
    InRv,
}

/// The decoder's whole state: the open-element path, the current state,
/// the header and records gathered so far, the record accumulator, and how
/// many radius vectors of the current record have been seen.
pub ghost struct BState {
    pub path: Seq<Seq<u8>>,
    pub ctx: Ctx,
    pub info: CaveFileInfoS,
    pub data: Seq<SurveyDataS>,
    pub cur: SurveyDataS,
    pub rv_count: int,
}

pub open spec fn init_state() -> BState {
    BState {
        path: Seq::empty(),
        ctx: Ctx::Outside,
        info: default_info_s(),
        data: Seq::empty(),
        cur: default_survey_s(),
        rv_count: 0,
    }
}

/// Routes a text node to the header field the open tag names; unknown
/// tags are ignored.
pub open spec fn set_header(info: CaveFileInfoS, tag: Seq<u8>, t: Seq<u8>) -> CaveFileInfoS {
    if tag == nm::s_cave_name() {
        CaveFileInfoS { cave_name: t, ..info }
    } else if tag == nm::s_elevation() {
        CaveFileInfoS { first_start_absolute_elevation: t, ..info }
    } else if tag == nm::s_geo_coding() {
        CaveFileInfoS { geo_coding: t, ..info }
    } else if tag == nm::s_unit() {
        CaveFileInfoS { unit: t, ..info }
    } else if tag == nm::s_use_mag() {
        CaveFileInfoS { use_magnetic_azimuth: t, ..info }
    } else {
        info
    }
}

/// Routes a text node to the station field the open tag names. The three
/// identifier fields must parse as 32-bit decimals; unknown tags are
/// ignored; free-text fields never fail.
pub open spec fn set_station(cur: SurveyDataS, tag: Seq<u8>, t: Seq<u8>) -> Option<SurveyDataS> {
    if tag == nm::s_id() {
        match parse_i32(t) {
            None => None,
            Some(v) => Some(SurveyDataS { id: v, ..cur }),
        }
    } else if tag == nm::s_cid() {
        match parse_i32(t) {
            None => None,
            Some(v) => Some(SurveyDataS { closure_to_id: v, ..cur }),
        }
    } else if tag == nm::s_frid() {
        match parse_i32(t) {
            None => None,
            Some(v) => Some(SurveyDataS { from_id: v, ..cur }),
        }
    } else if tag == nm::s_az() {
        Some(SurveyDataS { azimuth: t, ..cur })
    } else if tag == nm::s_cl() {
        Some(SurveyDataS { color: t, ..cur })
    } else if tag == nm::s_cm() {
        Some(SurveyDataS { comment: Some(t), ..cur })
    } else if tag == nm::s_dt() {
        Some(SurveyDataS { date: t, ..cur })
    } else if tag == nm::s_dp() {
        Some(SurveyDataS { depth: t, ..cur })
    } else if tag == nm::s_dpi() {
        Some(SurveyDataS { depth_in: t, ..cur })
    } else if tag == nm::s_d() {
        Some(SurveyDataS { down: t, ..cur })
    } else if tag == nm::s_exc() {
        Some(SurveyDataS { excluded: t, ..cur })
    } else if tag == nm::s_ex() {
        Some(SurveyDataS { explorer: Some(t), ..cur })
    } else if tag == nm::s_inc() {
        Some(SurveyDataS { inclination: t, ..cur })
    } else if tag == nm::s_lt() {
        Some(SurveyDataS { latitude: t, ..cur })
    } else if tag == nm::s_l() {
        Some(SurveyDataS { left: t, ..cur })
    } else if tag == nm::s_lg() {
        Some(SurveyDataS { length: t, ..cur })
    } else if tag == nm::s_lk() {
        Some(SurveyDataS { locked: t, ..cur })
    } else if tag == nm::s_lgt() {
        Some(SurveyDataS { longitude: t, ..cur })
    } else if tag == nm::s_nm() {
        Some(SurveyDataS { name: Some(t), ..cur })
    } else if tag == nm::s_prty() {
        Some(SurveyDataS { profile_type: t, ..cur })
    } else if tag == nm::s_r() {
        Some(SurveyDataS { right: t, ..cur })
    } else if tag == nm::s_sc() {
        Some(SurveyDataS { section: Some(t), ..cur })
    } else if tag == nm::s_ty() {
        Some(SurveyDataS { station_type: t, ..cur })
    } else if tag == nm::s_u() {
        Some(SurveyDataS { up: t, ..cur })
    } else {
        Some(cur)
    }
}

/// Routes a text node to a shape flag or profile value.
pub open spec fn set_shape(sh: ShapeS, tag: Seq<u8>, t: Seq<u8>) -> ShapeS {
    if tag == nm::s_hpra() {
        ShapeS { has_profile_azimut: t, ..sh }
    } else if tag == nm::s_hprt() {
        ShapeS { has_profile_tilt: t, ..sh }
    } else if tag == nm::s_praz() {
        ShapeS { profile_azimut: t, ..sh }
    } else if tag == nm::s_prt() {
        ShapeS { profile_tilt: t, ..sh }
    } else {
        sh
    }
}

/// Routes a text node to a field of radius vector `idx`. The position in
/// the document is authoritative: the `ag` angle text is ignored, since the
/// angle of each slot is a structural constant; vectors past the fourth
/// are ignored.
pub open spec fn set_rv(sh: ShapeS, idx: int, tag: Seq<u8>, t: Seq<u8>) -> ShapeS {
    if 0 <= idx < sh.radius_collection.len() {
        let rv = sh.radius_collection[idx];
        let rv2 = if tag == nm::s_lg_low() {
            RadiusVectorS { length: t, ..rv }
        } else if tag == nm::s_tc_low() {
            RadiusVectorS { tension_corridor: t, ..rv }
        } else if tag == nm::s_tp_low() {
            RadiusVectorS { tension_profile: t, ..rv }
        } else {
            rv
        };
        ShapeS { radius_collection: sh.radius_collection.update(idx, rv2), ..sh }
    } else {
        sh
    }
}

/// One transition of the decoder state machine. `None` is malformed
/// input: a tag that closes nothing or the wrong element, a nested record,
/// an identifier that does not parse, or a record of unknown kind.
pub open spec fn step(st: BState, ev: Ev) -> Option<BState> {
    match ev {
        Ev::Start(n) => {
            if st.ctx == Ctx::InRecord && n == nm::s_srvd() {
                None
            } else {
                let st1 = BState { path: st.path.push(n), ..st };
                if n == nm::s_srvd() && st.ctx == Ctx::Outside {
                    Some(
                        BState {
                            ctx: Ctx::InRecord,
                            cur: default_survey_s(),
                            rv_count: 0,
                            ..st1
                        },
                    )
                } else if n == nm::s_sh() && st.ctx == Ctx::InRecord {
                    Some(BState { ctx: Ctx::InShape, ..st1 })
                } else if n == nm::s_rc() && st.ctx == Ctx::InShape {
                    Some(BState { ctx: Ctx::InRc, ..st1 })
                } else if n == nm::s_rv() && st.ctx == Ctx::InRc {
                    Some(BState { ctx: Ctx::InRv, rv_count: st.rv_count + 1, ..st1 })
                } else {
                    Some(st1)
                }
            }
        },
        Ev::End(n) => {
            if st.path.len() == 0 || st.path.last() != n {
                None
            } else {
                let st1 = BState { path: st.path.drop_last(), ..st };
                if n == nm::s_srvd() && st.ctx == Ctx::InRecord {
                    if station_type_ok(st.cur.station_type) {
                        Some(
                            BState {
                                ctx: Ctx::Outside,
                                data: st.data.push(st.cur),
                                cur: default_survey_s(),
                                rv_count: 0,
                                ..st1
                            },
                        )
                    } else {
                        None
                    }
                } else if n == nm::s_sh() && st.ctx == Ctx::InShape {
                    Some(BState { ctx: Ctx::InRecord, ..st1 })
                } else if n == nm::s_rc() && st.ctx == Ctx::InRc {
                    Some(BState { ctx: Ctx::InShape, ..st1 })
                } else if n == nm::s_rv() && st.ctx == Ctx::InRv {
                    Some(BState { ctx: Ctx::InRc, ..st1 })
                } else {
                    Some(st1)
                }
            }
        },
        Ev::Text(t) => {
            if st.path.len() == 0 {
                Some(st)
            } else {
                let tag = st.path.last();
                match st.ctx {
                    Ctx::Outside => Some(BState { info: set_header(st.info, tag, t), ..st }),
                    Ctx::InRecord => match set_station(st.cur, tag, t) {
                        None => None,
                        Some(c) => Some(BState { cur: c, ..st }),
                    },
                    Ctx::InShape => Some(
                        BState {
                            cur: SurveyDataS { shape: set_shape(st.cur.shape, tag, t), ..st.cur },
                            ..st
                        },
                    ),
                    Ctx::InRc => Some(st),
                    Ctx::InRv => Some(
                        BState {
                            cur: SurveyDataS {
                                shape: set_rv(st.cur.shape, st.rv_count - 1, tag, t),
                                ..st.cur
                            },
                            ..st
                        },
                    ),
                }
            }
        },
    }
}

/// Folds the state machine over an event sequence.
pub open spec fn fold_events(st: BState, evs: Seq<Ev>) -> Option<BState>
    decreases evs.len(),
{
    if evs.len() == 0 {
        Some(st)
    } else {
        match step(st, evs.first()) {
            None => None,
            Some(st2) => fold_events(st2, evs.drop_first()),
        }
    }
}

/// A finished decode: every opened element was closed.
pub open spec fn finalize(st: BState) -> Option<CaveFileS> {
    if st.path.len() == 0 {
        Some(CaveFileS { info: st.info, data: st.data })
    } else {
        None
    }
}

/// What decoding a byte stream yields: tokenize, fold the state machine,
/// and demand balance at the end; `None` is malformed input.
pub open spec fn spec_decode(s: Seq<u8>) -> Option<CaveFileS> {
    match lex_from(s, 0) {
        None => None,
        Some(evs) => match fold_events(init_state(), evs) {
            None => None,
            Some(st) => finalize(st),
        },
    }
}

/// What remains of a decode that has reached position `i` in state `st`.
pub open spec fn decode_cont(st: BState, s: Seq<u8>, i: int) -> Option<CaveFileS> {
    match lex_from(s, i) {
        None => None,
        Some(evs) => match fold_events(st, evs) {
            None => None,
            Some(st2) => finalize(st2),
        },
    }
}

pub proof fn lemma_fold_cons(st: BState, ev: Ev, rest: Seq<Ev>)
    ensures
        fold_events(st, seq![ev] + rest) == match step(st, ev) {
            None => None,
            Some(st2) => fold_events(st2, rest),
        },
{
    let evs = seq![ev] + rest;
    assert(evs.len() == 1 + rest.len());
    assert(evs.first() == ev);
    assert(evs.drop_first() =~= rest);
}

pub proof fn lemma_fold_cons2(st: BState, e1: Ev, e2: Ev, rest: Seq<Ev>)
    ensures
        fold_events(st, seq![e1, e2] + rest) == match step(st, e1) {
            None => None,
            Some(st2) => match step(st2, e2) {
                None => None,
                Some(st3) => fold_events(st3, rest),
            },
        },
{
    let evs = seq![e1, e2] + rest;
    assert(evs.first() == e1);
    assert(evs.drop_first() =~= seq![e2] + rest);
    match step(st, e1) {
        None => {},
        Some(st2) => {
            lemma_fold_cons(st2, e2, rest);
        },
    }
}

/// The views of the open-element path.
pub open spec fn path_views(p: Seq<Vec<u8>>) -> Seq<Seq<u8>> {
    p.map_values(|v: Vec<u8>| v@)
}

/// The decoder's working state, in executable form.
pub struct Builder {
    pub path: Vec<Vec<u8>>,
    pub ctx: Ctx,
    pub info: CaveFileInfo,
    pub data: Vec<SurveyData>,
    pub cur: SurveyData,
    pub rv_count: usize,
}

impl View for Builder {
    type V = BState;

    open spec fn view(&self) -> BState {
        BState {
            path: path_views(self.path@),
            ctx: self.ctx,
            info: self.info@,
            data: data_views(self.data@),
            cur: self.cur@,
            rv_count: self.rv_count as int,
        }
    }
}

impl Builder {
    pub fn new() -> (r: Builder)
        ensures
            r@ == init_state(),
    {
        let r = Builder {
            path: Vec::new(),
            ctx: Ctx::Outside,
            info: CaveFileInfo::default(),
            data: Vec::new(),
            cur: SurveyData::default(),
            rv_count: 0,
        };
        assert(path_views(r.path@) =~= Seq::<Seq<u8>>::empty());
        assert(data_views(r.data@) =~= Seq::<SurveyDataS>::empty());
        r
    }

    pub fn step_start(&mut self, n: Vec<u8>) -> (ok: bool)
        requires
            old(self).rv_count < usize::MAX,
        ensures
            match step(old(self)@, Ev::Start(n@)) {
                None => !ok,
                Some(st) => ok && final(self)@ == st,
            },
    {
        let ghost nv = n@;
        let srvd = nm::b_srvd();
        let is_srvd = bytes_eq(n.as_slice(), srvd.as_slice());
        if self.ctx == Ctx::InRecord && is_srvd {
            return false;
        }
        let is_sh = bytes_eq(n.as_slice(), nm::b_sh().as_slice());
        let is_rc = bytes_eq(n.as_slice(), nm::b_rc().as_slice());
        let is_rv = bytes_eq(n.as_slice(), nm::b_rv().as_slice());
        let ghost p0 = self.path@;
        self.path.push(n);
        proof {
            assert(path_views(self.path@) =~= path_views(p0).push(nv));
        }
        if is_srvd && self.ctx == Ctx::Outside {
            self.ctx = Ctx::InRecord;
            self.cur = SurveyData::default();
            self.rv_count = 0;
        } else if is_sh && self.ctx == Ctx::InRecord {
            self.ctx = Ctx::InShape;
        } else if is_rc && self.ctx == Ctx::InShape {
            self.ctx = Ctx::InRc;
        } else if is_rv && self.ctx == Ctx::InRc {
            self.ctx = Ctx::InRv;
            self.rv_count = self.rv_count + 1;
        }
        true
    }

    pub fn step_end(&mut self, n: Vec<u8>) -> (ok: bool)
        ensures
            match step(old(self)@, Ev::End(n@)) {
                None => !ok,
                Some(st) => ok && final(self)@ == st,
            },
    {
        if self.path.len() == 0 {
            return false;
        }
        let last = self.path.len() - 1;
        if !bytes_eq(self.path[last].as_slice(), n.as_slice()) {
            assert(old(self)@.path.last() == self.path@[last as int]@);
            return false;
        }
        assert(old(self)@.path.last() == n@);
        let ghost p0 = self.path@;
        self.path.pop();
        proof {
            assert(path_views(self.path@) =~= path_views(p0).drop_last());
        }
        let is_srvd = bytes_eq(n.as_slice(), nm::b_srvd().as_slice());
        let is_sh = bytes_eq(n.as_slice(), nm::b_sh().as_slice());
        let is_rc = bytes_eq(n.as_slice(), nm::b_rc().as_slice());
        let is_rv = bytes_eq(n.as_slice(), nm::b_rv().as_slice());
        if is_srvd && self.ctx == Ctx::InRecord {
            let ty_ok = bytes_eq(self.cur.station_type.as_slice(), nm::b_txt_start().as_slice())
                || bytes_eq(self.cur.station_type.as_slice(), nm::b_txt_real().as_slice())
                || bytes_eq(self.cur.station_type.as_slice(), nm::b_txt_virtual().as_slice())
                || bytes_eq(self.cur.station_type.as_slice(), nm::b_txt_closure().as_slice());
            if !ty_ok {
                return false;
            }
            let mut finished = SurveyData::default();
            core::mem::swap(&mut finished, &mut self.cur);
            let ghost d0 = self.data@;
            self.data.push(finished);
            proof {
                assert(data_views(self.data@) =~= data_views(d0).push(old(self)@.cur));
            }
            self.ctx = Ctx::Outside;
            self.rv_count = 0;
        } else if is_sh && self.ctx == Ctx::InShape {
            self.ctx = Ctx::InRecord;
        } else if is_rc && self.ctx == Ctx::InRc {
            self.ctx = Ctx::InShape;
        } else if is_rv && self.ctx == Ctx::InRv {
            self.ctx = Ctx::InRc;
        }
        true
    }

    pub fn step_text(&mut self, t: Vec<u8>) -> (ok: bool)
        ensures
            match step(old(self)@, Ev::Text(t@)) {
                None => !ok,
                Some(st) => ok && final(self)@ == st,
            },
    {
        if self.path.len() == 0 {
            return true;
        }
        let last = self.path.len() - 1;
        let tag = dup(&self.path[last]);
        assert(tag@ == old(self)@.path.last());
        match self.ctx {
            Ctx::Outside => {
                if bytes_eq(tag.as_slice(), nm::b_cave_name().as_slice()) {
                    self.info.cave_name = t;
                } else if bytes_eq(tag.as_slice(), nm::b_elevation().as_slice()) {
                    self.info.first_start_absolute_elevation = t;
                } else if bytes_eq(tag.as_slice(), nm::b_geo_coding().as_slice()) {
                    self.info.geo_coding = t;
                } else if bytes_eq(tag.as_slice(), nm::b_unit().as_slice()) {
                    self.info.unit = t;
                } else if bytes_eq(tag.as_slice(), nm::b_use_mag().as_slice()) {
                    self.info.use_magnetic_azimuth = t;
                }
                true
            },
            Ctx::InRecord => self.set_station_field(tag, t),
            Ctx::InShape => {
                if bytes_eq(tag.as_slice(), nm::b_hpra().as_slice()) {
                    self.cur.shape.has_profile_azimut = t;
                } else if bytes_eq(tag.as_slice(), nm::b_hprt().as_slice()) {
                    self.cur.shape.has_profile_tilt = t;
                } else if bytes_eq(tag.as_slice(), nm::b_praz().as_slice()) {
                    self.cur.shape.profile_azimut = t;
                } else if bytes_eq(tag.as_slice(), nm::b_prt().as_slice()) {
                    self.cur.shape.profile_tilt = t;
                }
                true
            },
            Ctx::InRc => true,
            Ctx::InRv => {
                if self.rv_count >= 1 && self.rv_count - 1 < self.cur.shape.radius_collection.len()
                {
                    let idx = self.rv_count - 1;
                    let ghost rc0 = self.cur.shape.radius_collection@;
                    if bytes_eq(tag.as_slice(), nm::b_lg_low().as_slice()) {
                        self.cur.shape.radius_collection[idx].length = t;
                    } else if bytes_eq(tag.as_slice(), nm::b_tc_low().as_slice()) {
                        self.cur.shape.radius_collection[idx].tension_corridor = t;
                    } else if bytes_eq(tag.as_slice(), nm::b_tp_low().as_slice()) {
                        self.cur.shape.radius_collection[idx].tension_profile = t;
                    }
                    proof {
                        assert(rc_views(self.cur.shape.radius_collection@) =~= rc_views(rc0).update(
                            idx as int,
                            rc_views(self.cur.shape.radius_collection@)[idx as int],
                        ));
                    }
                } else {
                    proof {
                        let sh0 = old(self)@.cur.shape;
                        assert(set_rv(sh0, old(self)@.rv_count - 1, tag@, t@) == sh0);
                    }
                }
                true
            },
        }
    }

    fn set_station_field(&mut self, tag: Vec<u8>, t: Vec<u8>) -> (ok: bool)
        requires
            old(self).ctx == Ctx::InRecord,
            old(self)@.path.len() > 0,
            tag@ == old(self)@.path.last(),
        ensures
            match step(old(self)@, Ev::Text(t@)) {
                None => !ok,
                Some(st) => ok && final(self)@ == st,
            },
    {
        if bytes_eq(tag.as_slice(), nm::b_id().as_slice()) {
            match parse_i32_bytes(t.as_slice()) {
                None => false,
                Some(v) => {
                    self.cur.id = v;
                    true
                },
            }
        } else if bytes_eq(tag.as_slice(), nm::b_cid().as_slice()) {
            match parse_i32_bytes(t.as_slice()) {
                None => false,
                Some(v) => {
                    self.cur.closure_to_id = v;
                    true
                },
            }
        } else if bytes_eq(tag.as_slice(), nm::b_frid().as_slice()) {
            match parse_i32_bytes(t.as_slice()) {
                None => false,
                Some(v) => {
                    self.cur.from_id = v;
                    true
                },
            }
        } else if bytes_eq(tag.as_slice(), nm::b_az().as_slice()) {
            self.cur.azimuth = t;
            true
        } else if bytes_eq(tag.as_slice(), nm::b_cl().as_slice()) {
            self.cur.color = t;
            true
        } else if bytes_eq(tag.as_slice(), nm::b_cm().as_slice()) {
            self.cur.comment = Some(t);
            true
        } else if bytes_eq(tag.as_slice(), nm::b_dt().as_slice()) {
            self.cur.date = t;
            true
        } else if bytes_eq(tag.as_slice(), nm::b_dp().as_slice()) {
            self.cur.depth = t;
            true
        } else if bytes_eq(tag.as_slice(), nm::b_dpi().as_slice()) {
            self.cur.depth_in = t;
            true
        } else if bytes_eq(tag.as_slice(), nm::b_d().as_slice()) {
            self.cur.down = t;
            true
        } else if bytes_eq(tag.as_slice(), nm::b_exc().as_slice()) {
            self.cur.excluded = t;
            true
        } else if bytes_eq(tag.as_slice(), nm::b_ex().as_slice()) {
            self.cur.explorer = Some(t);
            true
        } else if bytes_eq(tag.as_slice(), nm::b_inc().as_slice()) {
            self.cur.inclination = t;
            true
        } else if bytes_eq(tag.as_slice(), nm::b_lt().as_slice()) {
            self.cur.latitude = t;
            true
        } else if bytes_eq(tag.as_slice(), nm::b_l().as_slice()) {
            self.cur.left = t;
            true
        } else if bytes_eq(tag.as_slice(), nm::b_lg().as_slice()) {
            self.cur.length = t;
            true
        } else if bytes_eq(tag.as_slice(), nm::b_lk().as_slice()) {
            self.cur.locked = t;
            true
        } else if bytes_eq(tag.as_slice(), nm::b_lgt().as_slice()) {
            self.cur.longitude = t;
            true
        } else if bytes_eq(tag.as_slice(), nm::b_nm().as_slice()) {
            self.cur.name = Some(t);
            true
        } else if bytes_eq(tag.as_slice(), nm::b_prty().as_slice()) {
            self.cur.profile_type = t;
            true
        } else if bytes_eq(tag.as_slice(), nm::b_r().as_slice()) {
            self.cur.right = t;
            true
        } else if bytes_eq(tag.as_slice(), nm::b_sc().as_slice()) {
            self.cur.section = Some(t);
            true
        } else if bytes_eq(tag.as_slice(), nm::b_ty().as_slice()) {
            self.cur.station_type = t;
            true
        } else if bytes_eq(tag.as_slice(), nm::b_u().as_slice()) {
            self.cur.up = t;
            true
        } else {
            true
        }
    }
}

/// Extracts the tag name starting at `a` within `s[a..b]`: the bytes up to
/// the first whitespace.
fn name_range(s: &[u8], a: usize, b: usize) -> (r: Vec<u8>)
    requires
        a <= b <= s@.len(),
    ensures
        r@ == name_of(s@.subrange(a as int, b as int)),
{
    let ghost t = s@.subrange(a as int, b as int);
    let mut i: usize = a;
    while i < b && !ws_byte(s[i])
        invariant
            a <= i <= b <= s@.len(),
            t == s@.subrange(a as int, b as int),
            name_end(t, 0) == name_end(t, i - a),
        decreases b - i,
    {
        proof {
            assert(t[i - a] == s@[i as int]);
            assert(name_end(t, i - a) == name_end(t, i - a + 1));
        }
        i += 1;
    }
    assert(name_end(t, 0) == i - a);
    let r = copy_range(s, a, i);
    assert(r@ =~= t.take(i - a));
    r
}

/// Decodes a CaveFile byte stream into the document model. Malformed
/// input, exactly as `spec_decode` defines it, yields `MalformedInput`.
#[verifier::rlimit(100)]
pub fn read_cavefile(input: &[u8]) -> (r: Result<CaveFile, CaveError>)
    ensures
        match r {
            Ok(c) => spec_decode(input@) == Some(c@),
            Err(e) => e == CaveError::MalformedInput && spec_decode(input@) is None,
        },
{
    let ghost s = input@;
    let mut b = Builder::new();
    let mut pos: usize = 0;
    while pos < input.len()
        invariant
            pos <= s.len(),
            s == input@,
            decode_cont(b@, s, pos as int) == spec_decode(s),
            b@.rv_count <= pos as int,
        decreases s.len() - pos,
    {
        let ghost st0 = b@;
        let ghost ipos = pos as int;
        if input[pos] == 60 {
            match find_byte(input, pos + 1, 62) {
                None => {
                    assert(lex_from(s, ipos) is None);
                    return Err(CaveError::MalformedInput);
                },
                Some(j) => {
                    assert(pos < j < s.len());
                    let ghost inner = s.subrange(ipos + 1, j as int);
                    if j == pos + 1 {
                        assert(inner.len() == 0);
                        assert(lex_from(s, ipos) is None);
                        return Err(CaveError::MalformedInput);
                    }
                    assert(inner.len() > 0);
                    let c0 = input[pos + 1];
                    assert(c0 == inner[0]);
                    if c0 == 63 || c0 == 33 {
                        assert(lex_from(s, ipos) == lex_from(s, j + 1));
                        pos = j + 1;
                    } else if c0 == 47 {
                        let name = name_range(input, pos + 2, j);
                        proof {
                            assert(s.subrange(ipos + 2, j as int) =~= inner.skip(1));
                        }
                        let ghost ev = Ev::End(name@);
                        assert(lex_from(s, ipos) == cons_ev(ev, lex_from(s, j + 1)));
                        let ok = b.step_end(name);
                        proof {
                            if lex_from(s, j + 1) is Some {
                                lemma_fold_cons(st0, ev, lex_from(s, j + 1)->Some_0);
                            }
                        }
                        if !ok {
                            assert(spec_decode(s) is None);
                            return Err(CaveError::MalformedInput);
                        }
                        pos = j + 1;
                    } else if input[j - 1] == 47 && j - 1 > pos + 1 {
                        assert(inner[inner.len() - 1] == 47);
                        let name = name_range(input, pos + 1, j - 1);
                        proof {
                            assert(s.subrange(ipos + 1, j - 1 as int) =~= inner.take(
                                inner.len() - 1,
                            ));
                        }
                        if name.len() == 0 {
                            assert(lex_from(s, ipos) is None);
                            return Err(CaveError::MalformedInput);
                        }
                        let name2 = dup(&name);
                        let ghost e1 = Ev::Start(name@);
                        let ghost e2 = Ev::End(name@);
                        proof {
                            if lex_from(s, j + 1) is Some {
                                lemma_fold_cons2(st0, e1, e2, lex_from(s, j + 1)->Some_0);
                            }
                        }
                        let ok = b.step_start(name);
                        if !ok {
                            assert(spec_decode(s) is None);
                            return Err(CaveError::MalformedInput);
                        }
                        let ok2 = b.step_end(name2);
                        if !ok2 {
                            assert(spec_decode(s) is None);
                            return Err(CaveError::MalformedInput);
                        }
                        pos = j + 1;
                    } else {
                        assert(inner[inner.len() - 1] != 47);
                        let name = name_range(input, pos + 1, j);
                        proof {
                            assert(s.subrange(ipos + 1, j as int) =~= inner);
                        }
                        if name.len() == 0 {
                            assert(lex_from(s, ipos) is None);
                            return Err(CaveError::MalformedInput);
                        }
                        let ghost e1 = Ev::Start(name@);
                        assert(lex_from(s, ipos) == cons_ev(e1, lex_from(s, j + 1)));
                        proof {
                            if lex_from(s, j + 1) is Some {
                                lemma_fold_cons(st0, e1, lex_from(s, j + 1)->Some_0);
                            }
                        }
                        let ok = b.step_start(name);
                        if !ok {
                            assert(spec_decode(s) is None);
                            return Err(CaveError::MalformedInput);
                        }
                        pos = j + 1;
                    }
                },
            }
        } else {
            let j = match find_byte(input, pos, 60) {
                Some(j) => j,
                None => input.len(),
            };
            proof {
                crate::text::lemma_find_from(s, ipos, 60);
            }
            assert(pos < j <= s.len());
            let t = trimmed_range(input, pos, j);
            if t.len() > 0 {
                match unescape_bytes(t.as_slice()) {
                    None => {
                        assert(lex_from(s, ipos) is None);
                        return Err(CaveError::MalformedInput);
                    },
                    Some(u) => {
                        let ghost ev = Ev::Text(u@);
                        assert(lex_from(s, ipos) == cons_ev(ev, lex_from(s, j as int)));
                        proof {
                            if lex_from(s, j as int) is Some {
                                lemma_fold_cons(st0, ev, lex_from(s, j as int)->Some_0);
                            }
                        }
                        let ok = b.step_text(u);
                        if !ok {
                            assert(spec_decode(s) is None);
                            return Err(CaveError::MalformedInput);
                        }
                    },
                }
            } else {
                assert(lex_from(s, ipos) == lex_from(s, j as int));
            }
            pos = j;
        }
    }
    assert(lex_from(s, pos as int) == Some(Seq::<Ev>::empty()));
    assert(decode_cont(b@, s, pos as int) == finalize(b@));
    if b.path.len() == 0 {
        let Builder { path, ctx, info, data, cur, rv_count } = b;
        let c = CaveFile { info, data };
        Ok(c)
    } else {
        Err(CaveError::MalformedInput)
    }
}

} // verus!
