//! The laws of the codec: every decoded record carries the canonical
//! radius-vector frame, and decoding the event stream of an encoded
//! document rebuilds that document.
use vstd::prelude::*;
use crate::decode::{
    finalize, fold_events, init_state, lex_from, set_rv, spec_decode, step, BState, Ctx, Ev,
};
use crate::model::{
    canonical_angle, default_info_s, default_shape_s, default_survey_s, opt_text, shape_frame,
    station_type_ok, wf_info, wf_shape, wf_survey, CaveFileInfoS, CaveFileS, RadiusVectorS,
    ShapeS, SurveyDataS,
};
use crate::names as nm;
use crate::text::{i32_text, lemma_i32_text_round_trip};

verus! {

// ----- Fixed radius-vector order: an invariant of every decode -----

/// The shape frames the decoder can ever hold: the accumulator and every
/// finished record keep four vectors in canonical angular order.
pub open spec fn frames_ok(st: BState) -> bool {
    shape_frame(st.cur.shape) && forall|i: int|
        0 <= i < st.data.len() ==> shape_frame(#[trigger] st.data[i].shape)
}

proof fn lemma_default_frame()
    ensures
        shape_frame(default_shape_s()),
{
    let rc = default_shape_s().radius_collection;
    assert(rc.len() == 4);
    assert forall|i: int| 0 <= i < 4 implies #[trigger] rc[i].angle == canonical_angle(i) by {
        assert(rc[0].angle == canonical_angle(0));
        assert(rc[1].angle == canonical_angle(1));
        assert(rc[2].angle == canonical_angle(2));
        assert(rc[3].angle == canonical_angle(3));
    }
}

proof fn lemma_step_frames(st: BState, ev: Ev)
    requires
        frames_ok(st),
    ensures
        match step(st, ev) {
            Some(st2) => frames_ok(st2),
            None => true,
        },
{
    lemma_default_frame();
    match step(st, ev) {
        Some(st2) => {
            match ev {
                Ev::Text(t) => {
                    if st.path.len() > 0 && st.ctx == Ctx::InRv {
                        let sh = st.cur.shape;
                        let sh2 = set_rv(sh, st.rv_count - 1, st.path.last(), t);
                        assert(sh2.radius_collection.len() == sh.radius_collection.len());
                        assert forall|i: int| 0 <= i < 4 implies #[trigger] sh2.radius_collection[i].angle
                            == canonical_angle(i) by {
                            assert(sh.radius_collection[i].angle == canonical_angle(i));
                        }
                    }
                },
                Ev::End(n) => {
                    if st2.data.len() == st.data.len() + 1 {
                        assert forall|i: int| 0 <= i < st2.data.len() implies shape_frame(
                            #[trigger] st2.data[i].shape,
                        ) by {
                            if i < st.data.len() {
                                assert(st2.data[i] == st.data[i]);
                            }
                        }
                    }
                },
                _ => {},
            }
        },
        None => {},
    }
}

proof fn lemma_fold_frames(st: BState, evs: Seq<Ev>)
    requires
        frames_ok(st),
    ensures
        match fold_events(st, evs) {
            Some(st2) => frames_ok(st2),
            None => true,
        },
    decreases evs.len(),
{
    if evs.len() > 0 {
        lemma_step_frames(st, evs.first());
        match step(st, evs.first()) {
            Some(st2) => {
                lemma_fold_frames(st2, evs.drop_first());
            },
            None => {},
        }
    }
}

/// Whatever the input and however its radius vectors were ordered, every
/// record of a decoded document holds exactly four radius vectors whose
/// angles are the canonical sequence.
pub proof fn lemma_decode_shape_frames(s: Seq<u8>)
    ensures
        match spec_decode(s) {
            Some(c) => forall|i: int|
                0 <= i < c.data.len() ==> shape_frame(#[trigger] c.data[i].shape),
            None => true,
        },
{
    lemma_default_frame();
    assert(frames_ok(init_state()));
    match lex_from(s, 0) {
        Some(evs) => {
            lemma_fold_frames(init_state(), evs);
        },
        None => {},
    }
}

// ----- The canonical event stream of an encoded document -----

/// The events one field element yields back: open, its text if any, close.
pub open spec fn fev(tag: Seq<u8>, v: Seq<u8>) -> Seq<Ev> {
    if v.len() == 0 {
        seq![Ev::Start(tag), Ev::End(tag)]
    } else {
        seq![Ev::Start(tag), Ev::Text(v), Ev::End(tag)]
    }
}

pub open spec fn rv_events(rv: RadiusVectorS) -> Seq<Ev> {
    seq![Ev::Start(nm::s_rv())] + fev(nm::s_ag_low(), rv.angle) + fev(nm::s_lg_low(), rv.length)
        + fev(nm::s_tc_low(), rv.tension_corridor) + fev(nm::s_tp_low(), rv.tension_profile)
        + seq![Ev::End(nm::s_rv())]
}

pub open spec fn shape_events(sh: ShapeS) -> Seq<Ev> {
    seq![Ev::Start(nm::s_sh())] + fev(nm::s_hpra(), sh.has_profile_azimut) + fev(
        nm::s_hprt(),
        sh.has_profile_tilt,
    ) + fev(nm::s_praz(), sh.profile_azimut) + fev(nm::s_prt(), sh.profile_tilt) + seq![
        Ev::Start(nm::s_rc()),
    ] + rv_events(sh.radius_collection[0]) + rv_events(sh.radius_collection[1]) + rv_events(
        sh.radius_collection[2],
    ) + rv_events(sh.radius_collection[3]) + seq![Ev::End(nm::s_rc())] + seq![
        Ev::End(nm::s_sh()),
    ]
}

pub open spec fn fields1_events(sd: SurveyDataS) -> Seq<Ev> {
    fev(nm::s_az(), sd.azimuth) + fev(nm::s_cid(), i32_text(sd.closure_to_id)) + fev(
        nm::s_cl(),
        sd.color,
    ) + fev(nm::s_cm(), opt_text(sd.comment)) + fev(nm::s_dt(), sd.date) + fev(
        nm::s_dp(),
        sd.depth,
    )
}

pub open spec fn fields2_events(sd: SurveyDataS) -> Seq<Ev> {
    fev(nm::s_dpi(), sd.depth_in) + fev(nm::s_d(), sd.down) + fev(nm::s_exc(), sd.excluded) + fev(
        nm::s_ex(),
        opt_text(sd.explorer),
    ) + fev(nm::s_frid(), i32_text(sd.from_id)) + fev(nm::s_id(), i32_text(sd.id))
}

pub open spec fn fields3_events(sd: SurveyDataS) -> Seq<Ev> {
    fev(nm::s_inc(), sd.inclination) + fev(nm::s_lt(), sd.latitude) + fev(nm::s_l(), sd.left)
        + fev(nm::s_lg(), sd.length) + fev(nm::s_lk(), sd.locked) + fev(nm::s_lgt(), sd.longitude)
}

pub open spec fn fields4_events(sd: SurveyDataS) -> Seq<Ev> {
    fev(nm::s_nm(), opt_text(sd.name)) + fev(nm::s_prty(), sd.profile_type) + fev(
        nm::s_r(),
        sd.right,
    ) + fev(nm::s_sc(), opt_text(sd.section))
}

pub open spec fn record_events(sd: SurveyDataS) -> Seq<Ev> {
    seq![Ev::Start(nm::s_srvd())] + fields1_events(sd) + fields2_events(sd) + fields3_events(sd)
        + fields4_events(sd) + shape_events(sd.shape) + fev(nm::s_ty(), sd.station_type) + fev(
        nm::s_u(),
        sd.up,
    ) + seq![Ev::End(nm::s_srvd())]
}

pub open spec fn records_events_from(data: Seq<SurveyDataS>, i: int) -> Seq<Ev>
    decreases data.len() - i when 0 <= i
{
    if i >= data.len() {
        Seq::empty()
    } else {
        record_events(data[i]) + records_events_from(data, i + 1)
    }
}

pub open spec fn layer_events(name: Seq<u8>) -> Seq<Ev> {
    seq![Ev::Start(nm::s_layer_list())] + fev(nm::s_constant(), nm::s_txt_true()) + fev(
        nm::s_locked(),
        nm::s_txt_false(),
    ) + fev(nm::s_name_tag(), name) + seq![Ev::Start(nm::s_style())] + fev(
        nm::s_dash_scale(),
        nm::s_txt_one(),
    ) + fev(nm::s_fill_color(), nm::s_txt_fill()) + fev(nm::s_line_type(), nm::s_txt_standard())
        + fev(nm::s_line_type_scale(), nm::s_txt_one()) + fev(nm::s_opacity(), nm::s_txt_hundred())
        + fev(nm::s_size_mode(), nm::s_txt_switchable()) + fev(
        nm::s_stroke_color(),
        nm::s_txt_stroke(),
    ) + fev(nm::s_stroke_thickness(), nm::s_txt_one()) + seq![Ev::End(nm::s_style())] + fev(
        nm::s_visible(),
        nm::s_txt_true(),
    ) + seq![Ev::End(nm::s_layer_list())]
}

/// The event stream the encoder's output tokenizes to.
pub open spec fn doc_events(info: CaveFileInfoS, data: Seq<SurveyDataS>) -> Seq<Ev> {
    seq![Ev::Start(nm::s_cave_file())] + fev(nm::s_cave_name(), info.cave_name) + fev(
        nm::s_elevation(),
        info.first_start_absolute_elevation,
    ) + fev(nm::s_geo_coding(), info.geo_coding) + fev(nm::s_list_annotation(), Seq::empty())
        + seq![Ev::Start(nm::s_data())] + records_events_from(data, 0) + seq![
        Ev::End(nm::s_data()),
    ] + fev(nm::s_unit(), info.unit) + fev(nm::s_use_mag(), info.use_magnetic_azimuth) + fev(
        nm::s_constraints(),
        Seq::empty(),
    ) + fev(nm::s_carto_line(), Seq::empty()) + fev(nm::s_carto_page(), Seq::empty()) + fev(
        nm::s_carto_rectangle(),
        Seq::empty(),
    ) + fev(nm::s_carto_selection(), Seq::empty()) + fev(nm::s_carto_ellipse(), Seq::empty())
        + fev(nm::s_carto_spline(), Seq::empty()) + seq![Ev::Start(nm::s_layers())] + layer_events(
        nm::s_txt_overlay(),
    ) + layer_events(nm::s_txt_default()) + seq![Ev::End(nm::s_layers())] + fev(
        nm::s_carto_overlay(),
        Seq::empty(),
    ) + fev(nm::s_carto_linked(), Seq::empty()) + seq![Ev::End(nm::s_cave_file())]
}

// ----- Folding machinery -----

proof fn lemma_fold_one(st: BState, ev: Ev)
    ensures
        fold_events(st, seq![ev]) == step(st, ev),
{
    let evs = seq![ev];
    assert(evs.first() == ev);
    assert(evs.drop_first() =~= Seq::<Ev>::empty());
    match step(st, ev) {
        None => {},
        Some(m) => {
            assert(fold_events(m, Seq::<Ev>::empty()) == Some(m));
        },
    }
}

pub proof fn lemma_fold_append(st: BState, a: Seq<Ev>, b: Seq<Ev>)
    ensures
        fold_events(st, a + b) == match fold_events(st, a) {
            None => None,
            Some(m) => fold_events(m, b),
        },
    decreases a.len(),
{
    if a.len() == 0 {
        assert(a + b =~= b);
    } else {
        assert((a + b).first() == a.first());
        assert((a + b).drop_first() =~= a.drop_first() + b);
        match step(st, a.first()) {
            None => {},
            Some(m) => {
                lemma_fold_append(m, a.drop_first(), b);
            },
        }
    }
}

/// Whether a tag is one of the four that drive state transitions.
pub open spec fn plain_tag(tag: Seq<u8>) -> bool {
    tag != nm::s_srvd() && tag != nm::s_sh() && tag != nm::s_rc() && tag != nm::s_rv()
}

/// Folding one field element: the tag opens and closes around an optional
/// text node, leaving the path as it was.
proof fn lemma_fev(st: BState, tag: Seq<u8>, v: Seq<u8>)
    requires
        plain_tag(tag),
    ensures
        fold_events(st, fev(tag, v)) == (if v.len() == 0 {
            Some(st)
        } else {
            match step(BState { path: st.path.push(tag), ..st }, Ev::Text(v)) {
                None => None,
                Some(m) => Some(BState { path: st.path, ..m }),
            }
        }),
{
    nm::lemma_tag_facts();
    let st1 = BState { path: st.path.push(tag), ..st };
    assert(step(st, Ev::Start(tag)) == Some(st1));
    if v.len() == 0 {
        let evs = fev(tag, v);
        assert(evs.first() == Ev::Start(tag));
        assert(evs.drop_first() =~= seq![Ev::End(tag)]);
        lemma_fold_one(st1, Ev::End(tag));
        assert(st1.path.last() == tag);
        assert(st1.path.drop_last() =~= st.path);
        assert(step(st1, Ev::End(tag)) == Some(st));
    } else {
        let evs = fev(tag, v);
        assert(evs.first() == Ev::Start(tag));
        assert(evs.drop_first() =~= seq![Ev::Text(v), Ev::End(tag)]);
        assert(st1.path.len() > 0);
        assert(st1.path.last() == tag);
        match step(st1, Ev::Text(v)) {
            None => {
                assert(seq![Ev::Text(v), Ev::End(tag)].first() == Ev::Text(v));
            },
            Some(m) => {
                assert(m.path == st1.path);
                assert(m.ctx == st1.ctx);
                let two = seq![Ev::Text(v), Ev::End(tag)];
                assert(two.first() == Ev::Text(v));
                assert(two.drop_first() =~= seq![Ev::End(tag)]);
                lemma_fold_one(m, Ev::End(tag));
                assert(m.path.drop_last() =~= st.path);
                assert(step(m, Ev::End(tag)) == Some(BState { path: st.path, ..m }));
            },
        }
    }
}

// ----- One radius vector -----

#[verifier::rlimit(100)]
proof fn lemma_rv_fold(st: BState, rv: RadiusVectorS, k: int)
    requires
        st.ctx == Ctx::InRc,
        st.rv_count == k,
        0 <= k < 4,
        st.cur.shape.radius_collection.len() == 4,
        crate::model::wf_radius(rv),
    ensures
        fold_events(st, rv_events(rv)) == Some(
            BState {
                rv_count: k + 1,
                cur: SurveyDataS {
                    shape: ShapeS {
                        radius_collection: st.cur.shape.radius_collection.update(
                            k,
                            RadiusVectorS {
                                angle: st.cur.shape.radius_collection[k].angle,
                                length: rv.length,
                                tension_corridor: rv.tension_corridor,
                                tension_profile: rv.tension_profile,
                            },
                        ),
                        ..st.cur.shape
                    },
                    ..st.cur
                },
                ..st
            },
        ),
{
    nm::lemma_tag_facts();
    let e1 = seq![Ev::Start(nm::s_rv())];
    let f1 = fev(nm::s_ag_low(), rv.angle);
    let f2 = fev(nm::s_lg_low(), rv.length);
    let f3 = fev(nm::s_tc_low(), rv.tension_corridor);
    let f4 = fev(nm::s_tp_low(), rv.tension_profile);
    let e2 = seq![Ev::End(nm::s_rv())];
    let p1 = e1 + f1;
    let p2 = p1 + f2;
    let p3 = p2 + f3;
    let p4 = p3 + f4;
    assert(rv_events(rv) == p4 + e2);

    // Start(RV): into the vector, counting it.
    let b1 = BState {
        path: st.path.push(nm::s_rv()),
        ctx: Ctx::InRv,
        rv_count: k + 1,
        ..st
    };
    lemma_fold_one(st, Ev::Start(nm::s_rv()));
    assert(step(st, Ev::Start(nm::s_rv())) == Some(b1));
    assert(fold_events(st, e1) == Some(b1));

    let rc0 = st.cur.shape.radius_collection;

    // ag: the angle text is ignored; the slot keeps its canonical angle.
    lemma_fev(b1, nm::s_ag_low(), rv.angle);
    lemma_fold_append(st, e1, f1);
    assert(rc0.update(k, rc0[k]) =~= rc0);
    assert(set_rv(b1.cur.shape, k, nm::s_ag_low(), rv.angle) == b1.cur.shape);
    assert(fold_events(st, p1) == Some(b1));

    // lg, tc, tp set the three numeric fields of slot k.
    let sh1 = ShapeS {
        radius_collection: rc0.update(k, RadiusVectorS { length: rv.length, ..rc0[k] }),
        ..st.cur.shape
    };
    let b2 = BState { cur: SurveyDataS { shape: sh1, ..st.cur }, ..b1 };
    lemma_fev(b1, nm::s_lg_low(), rv.length);
    lemma_fold_append(st, p1, f2);
    assert(fold_events(st, p2) == Some(b2));

    let rc1 = sh1.radius_collection;
    let sh2 = ShapeS {
        radius_collection: rc1.update(
            k,
            RadiusVectorS { tension_corridor: rv.tension_corridor, ..rc1[k] },
        ),
        ..sh1
    };
    let b3 = BState { cur: SurveyDataS { shape: sh2, ..st.cur }, ..b1 };
    lemma_fev(b2, nm::s_tc_low(), rv.tension_corridor);
    lemma_fold_append(st, p2, f3);
    assert(fold_events(st, p3) == Some(b3));

    let rc2 = sh2.radius_collection;
    let sh3 = ShapeS {
        radius_collection: rc2.update(
            k,
            RadiusVectorS { tension_profile: rv.tension_profile, ..rc2[k] },
        ),
        ..sh2
    };
    let b4 = BState { cur: SurveyDataS { shape: sh3, ..st.cur }, ..b1 };
    lemma_fev(b3, nm::s_tp_low(), rv.tension_profile);
    lemma_fold_append(st, p3, f4);
    assert(fold_events(st, p4) == Some(b4));

    // End(RV): back into the collection.
    lemma_fold_append(st, p4, e2);
    lemma_fold_one(b4, Ev::End(nm::s_rv()));
    assert(b4.path.last() == nm::s_rv());
    assert(b4.path.drop_last() =~= st.path);
    let b5 = BState { path: st.path, ctx: Ctx::InRc, ..b4 };
    assert(step(b4, Ev::End(nm::s_rv())) == Some(b5));

    assert(sh3.radius_collection =~= rc0.update(
        k,
        RadiusVectorS {
            angle: rc0[k].angle,
            length: rv.length,
            tension_corridor: rv.tension_corridor,
            tension_profile: rv.tension_profile,
        },
    ));
}

// ----- The shape block -----

#[verifier::rlimit(100)]
proof fn lemma_shape_fold(st: BState, sh: ShapeS)
    requires
        st.ctx == Ctx::InRecord,
        st.rv_count == 0,
        st.cur.shape == default_shape_s(),
        wf_shape(sh),
    ensures
        fold_events(st, shape_events(sh)) == Some(
            BState { rv_count: 4, cur: SurveyDataS { shape: sh, ..st.cur }, ..st },
        ),
{
    nm::lemma_tag_facts();
    let e1 = seq![Ev::Start(nm::s_sh())];
    let f1 = fev(nm::s_hpra(), sh.has_profile_azimut);
    let f2 = fev(nm::s_hprt(), sh.has_profile_tilt);
    let f3 = fev(nm::s_praz(), sh.profile_azimut);
    let f4 = fev(nm::s_prt(), sh.profile_tilt);
    let e2 = seq![Ev::Start(nm::s_rc())];
    let r0 = rv_events(sh.radius_collection[0]);
    let r1 = rv_events(sh.radius_collection[1]);
    let r2 = rv_events(sh.radius_collection[2]);
    let r3 = rv_events(sh.radius_collection[3]);
    let e3 = seq![Ev::End(nm::s_rc())];
    let e4 = seq![Ev::End(nm::s_sh())];
    let p1 = e1 + f1;
    let p2 = p1 + f2;
    let p3 = p2 + f3;
    let p4 = p3 + f4;
    let p5 = p4 + e2;
    let p6 = p5 + r0;
    let p7 = p6 + r1;
    let p8 = p7 + r2;
    let p9 = p8 + r3;
    let p10 = p9 + e3;
    assert(shape_events(sh) == p10 + e4);

    let b1 = BState { path: st.path.push(nm::s_sh()), ctx: Ctx::InShape, ..st };
    lemma_fold_one(st, Ev::Start(nm::s_sh()));
    assert(step(st, Ev::Start(nm::s_sh())) == Some(b1));
    assert(fold_events(st, e1) == Some(b1));

    let d0 = st.cur;
    let sh_a = ShapeS { has_profile_azimut: sh.has_profile_azimut, ..d0.shape };
    let b2 = BState { cur: SurveyDataS { shape: sh_a, ..d0 }, ..b1 };
    lemma_fev(b1, nm::s_hpra(), sh.has_profile_azimut);
    lemma_fold_append(st, e1, f1);
    assert(fold_events(st, p1) == Some(b2));

    let sh_b = ShapeS { has_profile_tilt: sh.has_profile_tilt, ..sh_a };
    let b3 = BState { cur: SurveyDataS { shape: sh_b, ..d0 }, ..b1 };
    lemma_fev(b2, nm::s_hprt(), sh.has_profile_tilt);
    lemma_fold_append(st, p1, f2);
    assert(fold_events(st, p2) == Some(b3));

    let sh_c = ShapeS { profile_azimut: sh.profile_azimut, ..sh_b };
    let b4 = BState { cur: SurveyDataS { shape: sh_c, ..d0 }, ..b1 };
    lemma_fev(b3, nm::s_praz(), sh.profile_azimut);
    lemma_fold_append(st, p2, f3);
    assert(fold_events(st, p3) == Some(b4));

    let sh_d = ShapeS { profile_tilt: sh.profile_tilt, ..sh_c };
    let b5 = BState { cur: SurveyDataS { shape: sh_d, ..d0 }, ..b1 };
    lemma_fev(b4, nm::s_prt(), sh.profile_tilt);
    lemma_fold_append(st, p3, f4);
    assert(fold_events(st, p4) == Some(b5));

    // Start(RC): into the collection.
    let b6 = BState { path: b5.path.push(nm::s_rc()), ctx: Ctx::InRc, ..b5 };
    lemma_fold_append(st, p4, e2);
    lemma_fold_one(b5, Ev::Start(nm::s_rc()));
    assert(step(b5, Ev::Start(nm::s_rc())) == Some(b6));
    assert(fold_events(st, p5) == Some(b6));

    // The four radius vectors, in document order, fill slots 0 to 3.
    let rc0 = sh_d.radius_collection;
    assert(rc0 == default_shape_s().radius_collection);
    assert(rc0.len() == 4);

    lemma_rv_fold(b6, sh.radius_collection[0], 0);
    lemma_fold_append(st, p5, r0);
    let rcA = rc0.update(
        0,
        RadiusVectorS {
            angle: rc0[0].angle,
            length: sh.radius_collection[0].length,
            tension_corridor: sh.radius_collection[0].tension_corridor,
            tension_profile: sh.radius_collection[0].tension_profile,
        },
    );
    let b7 = BState {
        rv_count: 1,
        cur: SurveyDataS { shape: ShapeS { radius_collection: rcA, ..sh_d }, ..d0 },
        ..b6
    };
    assert(fold_events(st, p6) == Some(b7));

    lemma_rv_fold(b7, sh.radius_collection[1], 1);
    lemma_fold_append(st, p6, r1);
    let rcB = rcA.update(
        1,
        RadiusVectorS {
            angle: rcA[1].angle,
            length: sh.radius_collection[1].length,
            tension_corridor: sh.radius_collection[1].tension_corridor,
            tension_profile: sh.radius_collection[1].tension_profile,
        },
    );
    let b8 = BState {
        rv_count: 2,
        cur: SurveyDataS { shape: ShapeS { radius_collection: rcB, ..sh_d }, ..d0 },
        ..b6
    };
    assert(fold_events(st, p7) == Some(b8));

    lemma_rv_fold(b8, sh.radius_collection[2], 2);
    lemma_fold_append(st, p7, r2);
    let rcC = rcB.update(
        2,
        RadiusVectorS {
            angle: rcB[2].angle,
            length: sh.radius_collection[2].length,
            tension_corridor: sh.radius_collection[2].tension_corridor,
            tension_profile: sh.radius_collection[2].tension_profile,
        },
    );
    let b9 = BState {
        rv_count: 3,
        cur: SurveyDataS { shape: ShapeS { radius_collection: rcC, ..sh_d }, ..d0 },
        ..b6
    };
    assert(fold_events(st, p8) == Some(b9));

    lemma_rv_fold(b9, sh.radius_collection[3], 3);
    lemma_fold_append(st, p8, r3);
    let rcD = rcC.update(
        3,
        RadiusVectorS {
            angle: rcC[3].angle,
            length: sh.radius_collection[3].length,
            tension_corridor: sh.radius_collection[3].tension_corridor,
            tension_profile: sh.radius_collection[3].tension_profile,
        },
    );
    let b10 = BState {
        rv_count: 4,
        cur: SurveyDataS { shape: ShapeS { radius_collection: rcD, ..sh_d }, ..d0 },
        ..b6
    };
    assert(fold_events(st, p9) == Some(b10));

    // The slots now agree with the shape being encoded: the angles were
    // canonical on both sides, the other fields were copied.
    assert(rcD =~= sh.radius_collection);
    assert(ShapeS { radius_collection: rcD, ..sh_d } == sh);

    // End(RC), End(SH).
    lemma_fold_append(st, p9, e3);
    lemma_fold_one(b10, Ev::End(nm::s_rc()));
    assert(b10.path.last() == nm::s_rc());
    assert(b10.path.drop_last() =~= b1.path);
    let b11 = BState { path: b1.path, ctx: Ctx::InShape, ..b10 };
    assert(step(b10, Ev::End(nm::s_rc())) == Some(b11));
    assert(fold_events(st, p10) == Some(b11));

    lemma_fold_append(st, p10, e4);
    lemma_fold_one(b11, Ev::End(nm::s_sh()));
    assert(b11.path.last() == nm::s_sh());
    assert(b11.path.drop_last() =~= st.path);
    let b12 = BState { path: st.path, ctx: Ctx::InRecord, ..b11 };
    assert(step(b11, Ev::End(nm::s_sh())) == Some(b12));
    assert(fold_events(st, shape_events(sh)) == Some(b12));
    assert(b12 == BState { rv_count: 4, cur: SurveyDataS { shape: sh, ..st.cur }, ..st });
}

// ----- One record -----

#[verifier::rlimit(100)]
proof fn lemma_fields1_fold(b: BState, sd: SurveyDataS)
    requires
        b.ctx == Ctx::InRecord,
        b.cur.comment is None,
        wf_survey(sd),
    ensures
        fold_events(b, fields1_events(sd)) == Some(
            BState {
                cur: SurveyDataS {
                    azimuth: sd.azimuth,
                    closure_to_id: sd.closure_to_id,
                    color: sd.color,
                    comment: sd.comment,
                    date: sd.date,
                    depth: sd.depth,
                    ..b.cur
                },
                ..b
            },
        ),
{
    nm::lemma_tag_facts();
    lemma_i32_text_round_trip(sd.closure_to_id);
    let g01 = fev(nm::s_az(), sd.azimuth);
    let g02 = fev(nm::s_cid(), i32_text(sd.closure_to_id));
    let g03 = fev(nm::s_cl(), sd.color);
    let g04 = fev(nm::s_cm(), opt_text(sd.comment));
    let g05 = fev(nm::s_dt(), sd.date);
    let g06 = fev(nm::s_dp(), sd.depth);
    let p01 = g01 + g02;
    let p02 = p01 + g03;
    let p03 = p02 + g04;
    let p04 = p03 + g05;
    assert(fields1_events(sd) == p04 + g06);
    let d0 = b.cur;
    let d1 = SurveyDataS { azimuth: sd.azimuth, ..d0 };
    lemma_fev(b, nm::s_az(), sd.azimuth);
    assert(fold_events(b, g01) == Some(BState { cur: d1, ..b }));
    let d2 = SurveyDataS { closure_to_id: sd.closure_to_id, ..d1 };
    lemma_fev(BState { cur: d1, ..b }, nm::s_cid(), i32_text(sd.closure_to_id));
    lemma_fold_append(b, g01, g02);
    assert(fold_events(b, p01) == Some(BState { cur: d2, ..b }));
    let d3 = SurveyDataS { color: sd.color, ..d2 };
    lemma_fev(BState { cur: d2, ..b }, nm::s_cl(), sd.color);
    lemma_fold_append(b, p01, g03);
    assert(fold_events(b, p02) == Some(BState { cur: d3, ..b }));
    let d4 = SurveyDataS { comment: sd.comment, ..d3 };
    lemma_fev(BState { cur: d3, ..b }, nm::s_cm(), opt_text(sd.comment));
    lemma_fold_append(b, p02, g04);
    assert(fold_events(b, p03) == Some(BState { cur: d4, ..b }));
    let d5 = SurveyDataS { date: sd.date, ..d4 };
    lemma_fev(BState { cur: d4, ..b }, nm::s_dt(), sd.date);
    lemma_fold_append(b, p03, g05);
    assert(fold_events(b, p04) == Some(BState { cur: d5, ..b }));
    let d6 = SurveyDataS { depth: sd.depth, ..d5 };
    lemma_fev(BState { cur: d5, ..b }, nm::s_dp(), sd.depth);
    lemma_fold_append(b, p04, g06);
    assert(fold_events(b, fields1_events(sd)) == Some(BState { cur: d6, ..b }));
}

#[verifier::rlimit(100)]
proof fn lemma_fields2_fold(b: BState, sd: SurveyDataS)
    requires
        b.ctx == Ctx::InRecord,
        b.cur.explorer is None,
        wf_survey(sd),
    ensures
        fold_events(b, fields2_events(sd)) == Some(
            BState {
                cur: SurveyDataS {
                    depth_in: sd.depth_in,
                    down: sd.down,
                    excluded: sd.excluded,
                    explorer: sd.explorer,
                    from_id: sd.from_id,
                    id: sd.id,
                    ..b.cur
                },
                ..b
            },
        ),
{
    nm::lemma_tag_facts();
    lemma_i32_text_round_trip(sd.from_id);
    lemma_i32_text_round_trip(sd.id);
    let g01 = fev(nm::s_dpi(), sd.depth_in);
    let g02 = fev(nm::s_d(), sd.down);
    let g03 = fev(nm::s_exc(), sd.excluded);
    let g04 = fev(nm::s_ex(), opt_text(sd.explorer));
    let g05 = fev(nm::s_frid(), i32_text(sd.from_id));
    let g06 = fev(nm::s_id(), i32_text(sd.id));
    let p01 = g01 + g02;
    let p02 = p01 + g03;
    let p03 = p02 + g04;
    let p04 = p03 + g05;
    assert(fields2_events(sd) == p04 + g06);
    let d0 = b.cur;
    let d1 = SurveyDataS { depth_in: sd.depth_in, ..d0 };
    lemma_fev(b, nm::s_dpi(), sd.depth_in);
    assert(fold_events(b, g01) == Some(BState { cur: d1, ..b }));
    let d2 = SurveyDataS { down: sd.down, ..d1 };
    lemma_fev(BState { cur: d1, ..b }, nm::s_d(), sd.down);
    lemma_fold_append(b, g01, g02);
    assert(fold_events(b, p01) == Some(BState { cur: d2, ..b }));
    let d3 = SurveyDataS { excluded: sd.excluded, ..d2 };
    lemma_fev(BState { cur: d2, ..b }, nm::s_exc(), sd.excluded);
    lemma_fold_append(b, p01, g03);
    assert(fold_events(b, p02) == Some(BState { cur: d3, ..b }));
    let d4 = SurveyDataS { explorer: sd.explorer, ..d3 };
    lemma_fev(BState { cur: d3, ..b }, nm::s_ex(), opt_text(sd.explorer));
    lemma_fold_append(b, p02, g04);
    assert(fold_events(b, p03) == Some(BState { cur: d4, ..b }));
    let d5 = SurveyDataS { from_id: sd.from_id, ..d4 };
    lemma_fev(BState { cur: d4, ..b }, nm::s_frid(), i32_text(sd.from_id));
    lemma_fold_append(b, p03, g05);
    assert(fold_events(b, p04) == Some(BState { cur: d5, ..b }));
    let d6 = SurveyDataS { id: sd.id, ..d5 };
    lemma_fev(BState { cur: d5, ..b }, nm::s_id(), i32_text(sd.id));
    lemma_fold_append(b, p04, g06);
    assert(fold_events(b, fields2_events(sd)) == Some(BState { cur: d6, ..b }));
}

#[verifier::rlimit(100)]
proof fn lemma_fields3_fold(b: BState, sd: SurveyDataS)
    requires
        b.ctx == Ctx::InRecord,
        wf_survey(sd),
    ensures
        fold_events(b, fields3_events(sd)) == Some(
            BState {
                cur: SurveyDataS {
                    inclination: sd.inclination,
                    latitude: sd.latitude,
                    left: sd.left,
                    length: sd.length,
                    locked: sd.locked,
                    longitude: sd.longitude,
                    ..b.cur
                },
                ..b
            },
        ),
{
    nm::lemma_tag_facts();
    let g01 = fev(nm::s_inc(), sd.inclination);
    let g02 = fev(nm::s_lt(), sd.latitude);
    let g03 = fev(nm::s_l(), sd.left);
    let g04 = fev(nm::s_lg(), sd.length);
    let g05 = fev(nm::s_lk(), sd.locked);
    let g06 = fev(nm::s_lgt(), sd.longitude);
    let p01 = g01 + g02;
    let p02 = p01 + g03;
    let p03 = p02 + g04;
    let p04 = p03 + g05;
    assert(fields3_events(sd) == p04 + g06);
    let d0 = b.cur;
    let d1 = SurveyDataS { inclination: sd.inclination, ..d0 };
    lemma_fev(b, nm::s_inc(), sd.inclination);
    assert(fold_events(b, g01) == Some(BState { cur: d1, ..b }));
    let d2 = SurveyDataS { latitude: sd.latitude, ..d1 };
    lemma_fev(BState { cur: d1, ..b }, nm::s_lt(), sd.latitude);
    lemma_fold_append(b, g01, g02);
    assert(fold_events(b, p01) == Some(BState { cur: d2, ..b }));
    let d3 = SurveyDataS { left: sd.left, ..d2 };
    lemma_fev(BState { cur: d2, ..b }, nm::s_l(), sd.left);
    lemma_fold_append(b, p01, g03);
    assert(fold_events(b, p02) == Some(BState { cur: d3, ..b }));
    let d4 = SurveyDataS { length: sd.length, ..d3 };
    lemma_fev(BState { cur: d3, ..b }, nm::s_lg(), sd.length);
    lemma_fold_append(b, p02, g04);
    assert(fold_events(b, p03) == Some(BState { cur: d4, ..b }));
    let d5 = SurveyDataS { locked: sd.locked, ..d4 };
    lemma_fev(BState { cur: d4, ..b }, nm::s_lk(), sd.locked);
    lemma_fold_append(b, p03, g05);
    assert(fold_events(b, p04) == Some(BState { cur: d5, ..b }));
    let d6 = SurveyDataS { longitude: sd.longitude, ..d5 };
    lemma_fev(BState { cur: d5, ..b }, nm::s_lgt(), sd.longitude);
    lemma_fold_append(b, p04, g06);
    assert(fold_events(b, fields3_events(sd)) == Some(BState { cur: d6, ..b }));
}

#[verifier::rlimit(100)]
proof fn lemma_fields4_fold(b: BState, sd: SurveyDataS)
    requires
        b.ctx == Ctx::InRecord,
        b.cur.name is None,
        b.cur.section is None,
        wf_survey(sd),
    ensures
        fold_events(b, fields4_events(sd)) == Some(
            BState {
                cur: SurveyDataS {
                    name: sd.name,
                    profile_type: sd.profile_type,
                    right: sd.right,
                    section: sd.section,
                    ..b.cur
                },
                ..b
            },
        ),
{
    nm::lemma_tag_facts();
    let g01 = fev(nm::s_nm(), opt_text(sd.name));
    let g02 = fev(nm::s_prty(), sd.profile_type);
    let g03 = fev(nm::s_r(), sd.right);
    let g04 = fev(nm::s_sc(), opt_text(sd.section));
    let p01 = g01 + g02;
    let p02 = p01 + g03;
    assert(fields4_events(sd) == p02 + g04);
    let d0 = b.cur;
    let d1 = SurveyDataS { name: sd.name, ..d0 };
    lemma_fev(b, nm::s_nm(), opt_text(sd.name));
    assert(fold_events(b, g01) == Some(BState { cur: d1, ..b }));
    let d2 = SurveyDataS { profile_type: sd.profile_type, ..d1 };
    lemma_fev(BState { cur: d1, ..b }, nm::s_prty(), sd.profile_type);
    lemma_fold_append(b, g01, g02);
    assert(fold_events(b, p01) == Some(BState { cur: d2, ..b }));
    let d3 = SurveyDataS { right: sd.right, ..d2 };
    lemma_fev(BState { cur: d2, ..b }, nm::s_r(), sd.right);
    lemma_fold_append(b, p01, g03);
    assert(fold_events(b, p02) == Some(BState { cur: d3, ..b }));
    let d4 = SurveyDataS { section: sd.section, ..d3 };
    lemma_fev(BState { cur: d3, ..b }, nm::s_sc(), opt_text(sd.section));
    lemma_fold_append(b, p02, g04);
    assert(fold_events(b, fields4_events(sd)) == Some(BState { cur: d4, ..b }));
}

#[verifier::rlimit(100)]
proof fn lemma_record_fold(st: BState, sd: SurveyDataS)
    requires
        st.ctx == Ctx::Outside,
        st.cur == default_survey_s(),
        wf_survey(sd),
    ensures
        fold_events(st, record_events(sd)) == Some(
            BState { data: st.data.push(sd), rv_count: 0, ..st },
        ),
{
    nm::lemma_tag_facts();
    let e1 = seq![Ev::Start(nm::s_srvd())];
    let h1 = fields1_events(sd);
    let h2 = fields2_events(sd);
    let h3 = fields3_events(sd);
    let h4 = fields4_events(sd);
    let fsh = shape_events(sd.shape);
    let g23 = fev(nm::s_ty(), sd.station_type);
    let g24 = fev(nm::s_u(), sd.up);
    let e2 = seq![Ev::End(nm::s_srvd())];
    let p1 = e1 + h1;
    let p2 = p1 + h2;
    let p3 = p2 + h3;
    let p4 = p3 + h4;
    let p5 = p4 + fsh;
    let p6 = p5 + g23;
    let p7 = p6 + g24;
    assert(record_events(sd) == p7 + e2);

    let d0 = default_survey_s();
    let b1 = BState {
        path: st.path.push(nm::s_srvd()),
        ctx: Ctx::InRecord,
        cur: d0,
        rv_count: 0,
        ..st
    };
    lemma_fold_one(st, Ev::Start(nm::s_srvd()));
    assert(step(st, Ev::Start(nm::s_srvd())) == Some(b1));
    assert(fold_events(st, e1) == Some(b1));

    lemma_fields1_fold(b1, sd);
    lemma_fold_append(st, e1, h1);
    let c1 = SurveyDataS {
        azimuth: sd.azimuth,
        closure_to_id: sd.closure_to_id,
        color: sd.color,
        comment: sd.comment,
        date: sd.date,
        depth: sd.depth,
        ..d0
    };
    assert(fold_events(st, p1) == Some(BState { cur: c1, ..b1 }));

    lemma_fields2_fold(BState { cur: c1, ..b1 }, sd);
    lemma_fold_append(st, p1, h2);
    let c2 = SurveyDataS {
        depth_in: sd.depth_in,
        down: sd.down,
        excluded: sd.excluded,
        explorer: sd.explorer,
        from_id: sd.from_id,
        id: sd.id,
        ..c1
    };
    assert(fold_events(st, p2) == Some(BState { cur: c2, ..b1 }));

    lemma_fields3_fold(BState { cur: c2, ..b1 }, sd);
    lemma_fold_append(st, p2, h3);
    let c3 = SurveyDataS {
        inclination: sd.inclination,
        latitude: sd.latitude,
        left: sd.left,
        length: sd.length,
        locked: sd.locked,
        longitude: sd.longitude,
        ..c2
    };
    assert(fold_events(st, p3) == Some(BState { cur: c3, ..b1 }));

    lemma_fields4_fold(BState { cur: c3, ..b1 }, sd);
    lemma_fold_append(st, p3, h4);
    let c4 = SurveyDataS {
        name: sd.name,
        profile_type: sd.profile_type,
        right: sd.right,
        section: sd.section,
        ..c3
    };
    assert(fold_events(st, p4) == Some(BState { cur: c4, ..b1 }));

    assert(c4.shape == default_shape_s());
    lemma_shape_fold(BState { cur: c4, ..b1 }, sd.shape);
    lemma_fold_append(st, p4, fsh);
    let c5 = SurveyDataS { shape: sd.shape, ..c4 };
    let bsh = BState { rv_count: 4, cur: c5, ..b1 };
    assert(fold_events(st, p5) == Some(bsh));

    let c6 = SurveyDataS { station_type: sd.station_type, ..c5 };
    lemma_fev(bsh, nm::s_ty(), sd.station_type);
    lemma_fold_append(st, p5, g23);
    assert(fold_events(st, p6) == Some(BState { cur: c6, ..bsh }));

    let c7 = SurveyDataS { up: sd.up, ..c6 };
    lemma_fev(BState { cur: c6, ..bsh }, nm::s_u(), sd.up);
    lemma_fold_append(st, p6, g24);
    let b_done = BState { cur: c7, ..bsh };
    assert(fold_events(st, p7) == Some(b_done));

    // The accumulator now equals the record being encoded.
    assert(c7 == sd);

    // End(SRVD): the record's kind is known, so it is classified and kept.
    lemma_fold_append(st, p7, e2);
    lemma_fold_one(b_done, Ev::End(nm::s_srvd()));
    assert(b_done.path.last() == nm::s_srvd());
    assert(b_done.path.drop_last() =~= st.path);
    assert(station_type_ok(sd.station_type));
    assert(step(b_done, Ev::End(nm::s_srvd())) == Some(
        BState {
            path: st.path,
            ctx: Ctx::Outside,
            data: st.data.push(sd),
            cur: default_survey_s(),
            rv_count: 0,
            ..b_done
        },
    ));
}

// ----- All records -----

#[verifier::rlimit(100)]
proof fn lemma_records_fold(st: BState, data: Seq<SurveyDataS>, i: int)
    requires
        st.ctx == Ctx::Outside,
        st.cur == default_survey_s(),
        st.rv_count == 0,
        0 <= i <= data.len(),
        forall|k: int| 0 <= k < data.len() ==> wf_survey(#[trigger] data[k]),
    ensures
        fold_events(st, records_events_from(data, i)) == Some(
            BState { data: st.data + data.skip(i), rv_count: 0, ..st },
        ),
    decreases data.len() - i,
{
    if i >= data.len() {
        assert(records_events_from(data, i) =~= Seq::<Ev>::empty());
        assert(st.data + data.skip(i) =~= st.data);
        assert(BState { data: st.data + data.skip(i), rv_count: 0, ..st } == st);
        assert(fold_events(st, Seq::<Ev>::empty()) == Some(st));
    } else {
        lemma_record_fold(st, data[i]);
        lemma_fold_append(st, record_events(data[i]), records_events_from(data, i + 1));
        let st2 = BState { data: st.data.push(data[i]), rv_count: 0, ..st };
        lemma_records_fold(st2, data, i + 1);
        assert(st.data.push(data[i]) + data.skip(i + 1) =~= st.data + data.skip(i));
    }
}

// ----- The whole document -----

/// One layer entry of the trailer changes nothing: none of its tags names
/// a header field.
#[verifier::rlimit(100)]
proof fn lemma_layer_fold(st: BState, name: Seq<u8>)
    requires
        st.ctx == Ctx::Outside,
        name.len() > 0,
    ensures
        fold_events(st, layer_events(name)) == Some(st),
{
    nm::lemma_tag_facts();
    let e1 = seq![Ev::Start(nm::s_layer_list())];
    let g01 = fev(nm::s_constant(), nm::s_txt_true());
    let g02 = fev(nm::s_locked(), nm::s_txt_false());
    let g03 = fev(nm::s_name_tag(), name);
    let e2 = seq![Ev::Start(nm::s_style())];
    let g04 = fev(nm::s_dash_scale(), nm::s_txt_one());
    let g05 = fev(nm::s_fill_color(), nm::s_txt_fill());
    let g06 = fev(nm::s_line_type(), nm::s_txt_standard());
    let g07 = fev(nm::s_line_type_scale(), nm::s_txt_one());
    let g08 = fev(nm::s_opacity(), nm::s_txt_hundred());
    let g09 = fev(nm::s_size_mode(), nm::s_txt_switchable());
    let g10 = fev(nm::s_stroke_color(), nm::s_txt_stroke());
    let g11 = fev(nm::s_stroke_thickness(), nm::s_txt_one());
    let e3 = seq![Ev::End(nm::s_style())];
    let g12 = fev(nm::s_visible(), nm::s_txt_true());
    let e4 = seq![Ev::End(nm::s_layer_list())];
    let p01 = e1 + g01;
    let p02 = p01 + g02;
    let p03 = p02 + g03;
    let p04 = p03 + e2;
    let p05 = p04 + g04;
    let p06 = p05 + g05;
    let p07 = p06 + g06;
    let p08 = p07 + g07;
    let p09 = p08 + g08;
    let p10 = p09 + g09;
    let p11 = p10 + g10;
    let p12 = p11 + g11;
    let p13 = p12 + e3;
    let p14 = p13 + g12;
    assert(layer_events(name) == p14 + e4);

    let b1 = BState { path: st.path.push(nm::s_layer_list()), ..st };
    lemma_fold_one(st, Ev::Start(nm::s_layer_list()));
    assert(step(st, Ev::Start(nm::s_layer_list())) == Some(b1));
    lemma_fev(b1, nm::s_constant(), nm::s_txt_true());
    lemma_fold_append(st, e1, g01);
    assert(fold_events(st, p01) == Some(b1));
    lemma_fev(b1, nm::s_locked(), nm::s_txt_false());
    lemma_fold_append(st, p01, g02);
    assert(fold_events(st, p02) == Some(b1));
    lemma_fev(b1, nm::s_name_tag(), name);
    lemma_fold_append(st, p02, g03);
    assert(fold_events(st, p03) == Some(b1));
    let b2 = BState { path: b1.path.push(nm::s_style()), ..b1 };
    lemma_fold_append(st, p03, e2);
    lemma_fold_one(b1, Ev::Start(nm::s_style()));
    assert(step(b1, Ev::Start(nm::s_style())) == Some(b2));
    assert(fold_events(st, p04) == Some(b2));
    lemma_fev(b2, nm::s_dash_scale(), nm::s_txt_one());
    lemma_fold_append(st, p04, g04);
    assert(fold_events(st, p05) == Some(b2));
    lemma_fev(b2, nm::s_fill_color(), nm::s_txt_fill());
    lemma_fold_append(st, p05, g05);
    assert(fold_events(st, p06) == Some(b2));
    lemma_fev(b2, nm::s_line_type(), nm::s_txt_standard());
    lemma_fold_append(st, p06, g06);
    assert(fold_events(st, p07) == Some(b2));
    lemma_fev(b2, nm::s_line_type_scale(), nm::s_txt_one());
    lemma_fold_append(st, p07, g07);
    assert(fold_events(st, p08) == Some(b2));
    lemma_fev(b2, nm::s_opacity(), nm::s_txt_hundred());
    lemma_fold_append(st, p08, g08);
    assert(fold_events(st, p09) == Some(b2));
    lemma_fev(b2, nm::s_size_mode(), nm::s_txt_switchable());
    lemma_fold_append(st, p09, g09);
    assert(fold_events(st, p10) == Some(b2));
    lemma_fev(b2, nm::s_stroke_color(), nm::s_txt_stroke());
    lemma_fold_append(st, p10, g10);
    assert(fold_events(st, p11) == Some(b2));
    lemma_fev(b2, nm::s_stroke_thickness(), nm::s_txt_one());
    lemma_fold_append(st, p11, g11);
    assert(fold_events(st, p12) == Some(b2));
    lemma_fold_append(st, p12, e3);
    lemma_fold_one(b2, Ev::End(nm::s_style()));
    assert(b2.path.last() == nm::s_style());
    assert(b2.path.drop_last() =~= b1.path);
    assert(step(b2, Ev::End(nm::s_style())) == Some(b1));
    assert(fold_events(st, p13) == Some(b1));
    lemma_fev(b1, nm::s_visible(), nm::s_txt_true());
    lemma_fold_append(st, p13, g12);
    assert(fold_events(st, p14) == Some(b1));
    lemma_fold_append(st, p14, e4);
    lemma_fold_one(b1, Ev::End(nm::s_layer_list()));
    assert(b1.path.last() == nm::s_layer_list());
    assert(b1.path.drop_last() =~= st.path);
    assert(step(b1, Ev::End(nm::s_layer_list())) == Some(st));
}

/// Round-trip law, at the event level: folding the decoder's state machine
/// over the event stream of an encoded well-formed document rebuilds the
/// document exactly, header and records alike.
#[verifier::rlimit(100)]
pub proof fn lemma_round_trip_events(info: CaveFileInfoS, data: Seq<SurveyDataS>)
    requires
        wf_info(info),
        forall|k: int| 0 <= k < data.len() ==> wf_survey(#[trigger] data[k]),
    ensures
        match fold_events(init_state(), doc_events(info, data)) {
            Some(st) => finalize(st) == Some(CaveFileS { info, data }),
            None => false,
        },
{
    nm::lemma_tag_facts();
    let st0 = init_state();
    let e0 = seq![Ev::Start(nm::s_cave_file())];
    let gcn = fev(nm::s_cave_name(), info.cave_name);
    let gel = fev(nm::s_elevation(), info.first_start_absolute_elevation);
    let ggc = fev(nm::s_geo_coding(), info.geo_coding);
    let gla = fev(nm::s_list_annotation(), Seq::empty());
    let ed1 = seq![Ev::Start(nm::s_data())];
    let recs = records_events_from(data, 0);
    let ed2 = seq![Ev::End(nm::s_data())];
    let gu = fev(nm::s_unit(), info.unit);
    let gum = fev(nm::s_use_mag(), info.use_magnetic_azimuth);
    let gc1 = fev(nm::s_constraints(), Seq::empty());
    let gc2 = fev(nm::s_carto_line(), Seq::empty());
    let gc3 = fev(nm::s_carto_page(), Seq::empty());
    let gc4 = fev(nm::s_carto_rectangle(), Seq::empty());
    let gc5 = fev(nm::s_carto_selection(), Seq::empty());
    let gc6 = fev(nm::s_carto_ellipse(), Seq::empty());
    let gc7 = fev(nm::s_carto_spline(), Seq::empty());
    let el1 = seq![Ev::Start(nm::s_layers())];
    let lay1 = layer_events(nm::s_txt_overlay());
    let lay2 = layer_events(nm::s_txt_default());
    let el2 = seq![Ev::End(nm::s_layers())];
    let gco = fev(nm::s_carto_overlay(), Seq::empty());
    let gcl = fev(nm::s_carto_linked(), Seq::empty());
    let ee = seq![Ev::End(nm::s_cave_file())];
    let p01 = e0 + gcn;
    let p02 = p01 + gel;
    let p03 = p02 + ggc;
    let p04 = p03 + gla;
    let p05 = p04 + ed1;
    let p06 = p05 + recs;
    let p07 = p06 + ed2;
    let p08 = p07 + gu;
    let p09 = p08 + gum;
    let p10 = p09 + gc1;
    let p11 = p10 + gc2;
    let p12 = p11 + gc3;
    let p13 = p12 + gc4;
    let p14 = p13 + gc5;
    let p15 = p14 + gc6;
    let p16 = p15 + gc7;
    let p17 = p16 + el1;
    let p18 = p17 + lay1;
    let p19 = p18 + lay2;
    let p20 = p19 + el2;
    let p21 = p20 + gco;
    let p22 = p21 + gcl;
    assert(doc_events(info, data) == p22 + ee);

    let b1 = BState { path: st0.path.push(nm::s_cave_file()), ..st0 };
    lemma_fold_one(st0, Ev::Start(nm::s_cave_file()));
    assert(step(st0, Ev::Start(nm::s_cave_file())) == Some(b1));
    assert(fold_events(st0, e0) == Some(b1));

    let i0 = default_info_s();
    let i1 = CaveFileInfoS { cave_name: info.cave_name, ..i0 };
    lemma_fev(b1, nm::s_cave_name(), info.cave_name);
    lemma_fold_append(st0, e0, gcn);
    if info.cave_name.len() == 0 {
        assert(info.cave_name =~= i0.cave_name);
    }
    let b2 = BState { info: i1, ..b1 };
    assert(fold_events(st0, p01) == Some(b2));

    let i2 = CaveFileInfoS { first_start_absolute_elevation: info.first_start_absolute_elevation, ..i1 };
    lemma_fev(b2, nm::s_elevation(), info.first_start_absolute_elevation);
    lemma_fold_append(st0, p01, gel);
    let b3 = BState { info: i2, ..b1 };
    assert(fold_events(st0, p02) == Some(b3));

    let i3 = CaveFileInfoS { geo_coding: info.geo_coding, ..i2 };
    lemma_fev(b3, nm::s_geo_coding(), info.geo_coding);
    lemma_fold_append(st0, p02, ggc);
    if info.geo_coding.len() == 0 {
        assert(info.geo_coding =~= i0.geo_coding);
    }
    let b4 = BState { info: i3, ..b1 };
    assert(fold_events(st0, p03) == Some(b4));

    lemma_fev(b4, nm::s_list_annotation(), Seq::empty());
    lemma_fold_append(st0, p03, gla);
    assert(fold_events(st0, p04) == Some(b4));

    let b5 = BState { path: b4.path.push(nm::s_data()), ..b4 };
    lemma_fold_append(st0, p04, ed1);
    lemma_fold_one(b4, Ev::Start(nm::s_data()));
    assert(step(b4, Ev::Start(nm::s_data())) == Some(b5));
    assert(fold_events(st0, p05) == Some(b5));

    lemma_records_fold(b5, data, 0);
    lemma_fold_append(st0, p05, recs);
    assert(b5.data + data.skip(0) =~= data);
    let b6 = BState { data: data, ..b5 };
    assert(fold_events(st0, p06) == Some(b6));

    lemma_fold_append(st0, p06, ed2);
    lemma_fold_one(b6, Ev::End(nm::s_data()));
    assert(b6.path.last() == nm::s_data());
    assert(b6.path.drop_last() =~= b1.path);
    let b7 = BState { path: b1.path, data: data, ..b4 };
    assert(step(b6, Ev::End(nm::s_data())) == Some(b7));
    assert(fold_events(st0, p07) == Some(b7));

    let i4 = CaveFileInfoS { unit: info.unit, ..i3 };
    lemma_fev(b7, nm::s_unit(), info.unit);
    lemma_fold_append(st0, p07, gu);
    let b8 = BState { info: i4, ..b7 };
    assert(fold_events(st0, p08) == Some(b8));

    let i5 = CaveFileInfoS { use_magnetic_azimuth: info.use_magnetic_azimuth, ..i4 };
    lemma_fev(b8, nm::s_use_mag(), info.use_magnetic_azimuth);
    lemma_fold_append(st0, p08, gum);
    let b9 = BState { info: i5, ..b7 };
    assert(fold_events(st0, p09) == Some(b9));

    assert(i5 == info);

    lemma_fev(b9, nm::s_constraints(), Seq::empty());
    lemma_fold_append(st0, p09, gc1);
    assert(fold_events(st0, p10) == Some(b9));
    lemma_fev(b9, nm::s_carto_line(), Seq::empty());
    lemma_fold_append(st0, p10, gc2);
    assert(fold_events(st0, p11) == Some(b9));
    lemma_fev(b9, nm::s_carto_page(), Seq::empty());
    lemma_fold_append(st0, p11, gc3);
    assert(fold_events(st0, p12) == Some(b9));
    lemma_fev(b9, nm::s_carto_rectangle(), Seq::empty());
    lemma_fold_append(st0, p12, gc4);
    assert(fold_events(st0, p13) == Some(b9));
    lemma_fev(b9, nm::s_carto_selection(), Seq::empty());
    lemma_fold_append(st0, p13, gc5);
    assert(fold_events(st0, p14) == Some(b9));
    lemma_fev(b9, nm::s_carto_ellipse(), Seq::empty());
    lemma_fold_append(st0, p14, gc6);
    assert(fold_events(st0, p15) == Some(b9));
    lemma_fev(b9, nm::s_carto_spline(), Seq::empty());
    lemma_fold_append(st0, p15, gc7);
    assert(fold_events(st0, p16) == Some(b9));

    let b10 = BState { path: b9.path.push(nm::s_layers()), ..b9 };
    lemma_fold_append(st0, p16, el1);
    lemma_fold_one(b9, Ev::Start(nm::s_layers()));
    assert(step(b9, Ev::Start(nm::s_layers())) == Some(b10));
    assert(fold_events(st0, p17) == Some(b10));

    lemma_layer_fold(b10, nm::s_txt_overlay());
    lemma_fold_append(st0, p17, lay1);
    assert(fold_events(st0, p18) == Some(b10));
    lemma_layer_fold(b10, nm::s_txt_default());
    lemma_fold_append(st0, p18, lay2);
    assert(fold_events(st0, p19) == Some(b10));

    lemma_fold_append(st0, p19, el2);
    lemma_fold_one(b10, Ev::End(nm::s_layers()));
    assert(b10.path.last() == nm::s_layers());
    assert(b10.path.drop_last() =~= b9.path);
    assert(step(b10, Ev::End(nm::s_layers())) == Some(b9));
    assert(fold_events(st0, p20) == Some(b9));

    lemma_fev(b9, nm::s_carto_overlay(), Seq::empty());
    lemma_fold_append(st0, p20, gco);
    assert(fold_events(st0, p21) == Some(b9));
    lemma_fev(b9, nm::s_carto_linked(), Seq::empty());
    lemma_fold_append(st0, p21, gcl);
    assert(fold_events(st0, p22) == Some(b9));

    lemma_fold_append(st0, p22, ee);
    lemma_fold_one(b9, Ev::End(nm::s_cave_file()));
    assert(b9.path.last() == nm::s_cave_file());
    assert(b9.path.drop_last() =~= st0.path);
    let b_end = BState { path: st0.path, info: i5, data: data, ..st0 };
    assert(step(b9, Ev::End(nm::s_cave_file())) == Some(b_end));
    assert(fold_events(st0, doc_events(info, data)) == Some(b_end));
    assert(b_end.path.len() == 0);
    assert(finalize(b_end) == Some(CaveFileS { info, data }));
}

} // verus!
