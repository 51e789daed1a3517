use fallsim::model::SCALE;
use fallsim::routes::{get_pos, valid_id, QueryError};
use fallsim::simulation::{Sim, SimError, TransformMatrix, V3};
use fallsim::MAX_ID;

#[test]
fn identity_transform_on_creation() {
    let tm = TransformMatrix::new();
    let cells = tm.into_v8();
    assert_eq!(cells.len(), 16);
    for (j, cell) in cells.iter().enumerate() {
        if j % 5 == 0 {
            assert_eq!(*cell, SCALE);
        } else {
            assert_eq!(*cell, 0);
        }
    }
    assert_eq!(tm.velocity, 0);
    assert!(!tm.grounded);
    assert_eq!(tm.get_last_update(), 0);
}

#[test]
fn gravity_exact_one_frame() {
    let mut tm = TransformMatrix::new();
    tm.move_by(&V3 { x: 0, y: 25 * SCALE, z: 0 });
    tm.simulate(SCALE);
    assert_eq!(tm.velocity, -98_100);
    assert_eq!(tm.mat[13], 25 * SCALE - 98_100);
    assert!(!tm.grounded);
}

#[test]
fn velocity_strictly_decreases_before_landing() {
    let mut tm = TransformMatrix::new();
    tm.move_by(&V3 { x: 0, y: 25 * SCALE, z: 0 });
    let mut last_v = tm.velocity;
    let mut last_y = tm.mat[13];
    for k in 1..=5i64 {
        tm.simulate(600_000);
        assert!(tm.velocity < last_v);
        assert!(tm.mat[13] <= last_y);
        assert_eq!(tm.velocity, -5_886 * k);
        last_v = tm.velocity;
        last_y = tm.mat[13];
    }
}

#[test]
fn grounded_body_never_changes() {
    let mut tm = TransformMatrix::new();
    tm.simulate(600_000);
    assert!(tm.grounded);
    assert_eq!(tm.velocity, 0);
    assert_eq!(tm.mat[13], 0);
    let frozen = tm.into_v8();
    tm.simulate(123_456_789);
    assert_eq!(tm.into_v8(), frozen);
    let again = tm.query_at(99_999_999);
    assert_eq!(again, frozen);
}

#[test]
fn landing_snaps_below_threshold() {
    let mut tm = TransformMatrix::new();
    tm.move_by(&V3 { x: 0, y: 1_000, z: 0 });
    tm.simulate(600_000);
    assert_eq!(tm.mat[13], 0);
    assert!(tm.grounded);
    assert_eq!(tm.velocity, 0);
}

#[test]
fn landing_rebounds_when_fast() {
    let mut tm = TransformMatrix::new();
    tm.move_by(&V3 { x: 0, y: 1_000, z: 0 });
    tm.simulate(SCALE);
    assert_eq!(tm.mat[13], 0);
    assert!(!tm.grounded);
    assert_eq!(tm.velocity, 88_290);
    tm.simulate(0);
    assert_eq!(tm.velocity, 88_290);
    assert_eq!(tm.mat[13], 88_290);
}

#[test]
fn boundary_id_inclusive_and_rejection() {
    let mut sim = Sim::new(0);
    assert!(valid_id(MAX_ID));
    assert!(!valid_id(MAX_ID + 1));
    let ok = get_pos(&mut sim, MAX_ID, 5);
    assert!(matches!(ok, Ok(ref v) if v.len() == 16));
    let err = get_pos(&mut sim, MAX_ID + 1, 5);
    assert_eq!(err, Err(QueryError::InvalidId));
}

#[test]
fn population_reports_internal_index_misuse() {
    let mut sim = Sim::new(0);
    assert_eq!(sim.get_pos_cache(MAX_ID + 1, 0), Err(SimError::IndexOutOfRange));
    assert!(sim.get_pos_cache(0, 0).is_ok());
}

#[test]
fn spawn_offsets_in_documented_ranges() {
    let sim = Sim::new(7);
    assert_eq!(sim.objects.len(), (MAX_ID as usize) + 1);
    for (i, tm) in sim.objects.iter().enumerate() {
        assert_eq!(tm.get_last_update(), 7);
        assert_eq!(tm.velocity, 0);
        assert!(!tm.grounded);
        assert!(-25 * SCALE <= tm.mat[12] && tm.mat[12] < 0);
        assert!(0 <= tm.mat[13] && tm.mat[13] < 25 * SCALE);
        assert_eq!(tm.mat[14], 12 * SCALE / 10 * (i as i64));
        for j in 0..16 {
            if j == 12 || j == 13 || j == 14 {
                continue;
            }
            if j % 5 == 0 {
                assert_eq!(tm.mat[j], SCALE);
            } else {
                assert_eq!(tm.mat[j], 0);
            }
        }
    }
}

#[test]
fn elapsed_time_drives_the_step() {
    let mut tm = TransformMatrix::new();
    tm.move_by(&V3 { x: 0, y: 25 * SCALE, z: 0 });
    tm.last_update = 1_000;
    let r = tm.query_at(1_001);
    assert_eq!(tm.last_update, 1_001);
    assert_eq!(tm.velocity, -5_886);
    assert_eq!(r[13], 25 * SCALE - 5_886);
    // an immediate re-query adds no gravity but still moves by the velocity
    let r2 = tm.query_at(1_001);
    assert_eq!(tm.velocity, -5_886);
    assert_eq!(r2[13], 25 * SCALE - 2 * 5_886);
}

#[test]
fn clock_going_backwards_counts_as_no_elapsed_time() {
    let mut tm = TransformMatrix::new();
    tm.move_by(&V3 { x: 0, y: 25 * SCALE, z: 0 });
    tm.last_update = 5_000;
    let r = tm.query_at(1_000);
    assert_eq!(tm.last_update, 1_000);
    assert_eq!(tm.velocity, 0);
    assert_eq!(r[13], 25 * SCALE);
}

#[test]
fn queries_through_the_population_advance_only_that_body() {
    let mut sim = Sim::new(100);
    let before: Vec<Vec<i64>> = sim.objects.iter().map(|t| t.mat.clone()).collect();
    let r = get_pos(&mut sim, 3, 1_100).unwrap();
    // one second elapsed: 60 frames of gravity on body 3 alone
    assert_eq!(sim.objects[3].last_update, 1_100);
    assert_eq!(r, sim.objects[3].mat);
    for (i, tm) in sim.objects.iter().enumerate() {
        if i != 3 {
            assert_eq!(tm.mat, before[i]);
            assert_eq!(tm.get_last_update(), 100);
        } else {
            for j in 0..16 {
                if j != 13 {
                    assert_eq!(tm.mat[j], before[i][j]);
                }
            }
        }
    }
}
