//! Fan curves: how a user curve is sanitized, and how a curve turns the
//! current temperature into a fan speed.
use vstd::prelude::*;

use super::models::{
    fan_profile_name, AppliedFanControlSnapshot, ApplyCustomFanCurvesRequest, ApplyFanProfileRequest,
    FanCurvePoint, FanCurveSet, FanProfileId,
};
use crate::json::{json_field, json_from_text, json_member, json_text_parses, parse_json_text, JsonField};
use crate::text::{
    push_decimal, push_hex_padded, spec_decimal, spec_hex_padded, spec_parse_unsigned, spec_trim,
    string_from, trim, parse_unsigned_chars,
};

verus! {

// ----------------------------------------------------------------------------
// Sanitizing a curve
// ----------------------------------------------------------------------------

/// `v` clamped into `lo..=hi`.
pub open spec fn clamp_u8(v: u8, lo: u8, hi: u8) -> u8 {
    if v < lo {
        lo
    } else if v > hi {
        hi
    } else {
        v
    }
}

/// A point with its temperature clamped to 30..=95 and its speed to 0..=100.
pub open spec fn clamp_point(p: FanCurvePoint) -> FanCurvePoint {
    FanCurvePoint { temp_c: clamp_u8(p.temp_c, 30, 95), speed_percent: clamp_u8(p.speed_percent, 0, 100) }
}

/// The curve used when a user curve has no points.
pub open spec fn default_curve() -> Seq<FanCurvePoint> {
    seq![
        FanCurvePoint { temp_c: 30, speed_percent: 0 },
        FanCurvePoint { temp_c: 49, speed_percent: 0 },
        FanCurvePoint { temp_c: 65, speed_percent: 22 },
        FanCurvePoint { temp_c: 74, speed_percent: 64 },
        FanCurvePoint { temp_c: 80, speed_percent: 100 },
    ]
}

/// The points a sanitized curve is built from: the clamped user points, or
/// the default curve when there are none.
pub open spec fn curve_basis(points: Seq<FanCurvePoint>) -> Seq<FanCurvePoint> {
    if points.len() == 0 {
        default_curve()
    } else {
        points.map_values(|p: FanCurvePoint| clamp_point(p))
    }
}

/// Some point of `s` sits at temperature `t`.
pub open spec fn has_temp(s: Seq<FanCurvePoint>, t: u8) -> bool {
    exists|j: int| 0 <= j < s.len() && (#[trigger] s[j]).temp_c == t
}

/// The speed of the first point of `s` at temperature `t` (meaningful when
/// `has_temp(s, t)`).
pub open spec fn first_speed_at(s: Seq<FanCurvePoint>, t: u8) -> u8
    decreases s.len(),
{
    if s.len() == 0 {
        0
    } else if has_temp(s.drop_last(), t) {
        first_speed_at(s.drop_last(), t)
    } else {
        s.last().speed_percent
    }
}

/// Temperatures strictly increase along `s`.
pub open spec fn temps_ascending(s: Seq<FanCurvePoint>) -> bool {
    forall|i: int, j: int| 0 <= i < j < s.len() ==> (#[trigger] s[i]).temp_c < (#[trigger] s[j]).temp_c
}

/// The largest first-occurrence speed in `basis` among the temperatures of
/// `r[0..=k]`: the speed floor that sanitizing carries up to point `k`.
pub open spec fn speed_floor(basis: Seq<FanCurvePoint>, r: Seq<FanCurvePoint>, k: int) -> u8
    decreases k,
{
    if k <= 0 {
        first_speed_at(basis, r[0].temp_c)
    } else {
        let below = speed_floor(basis, r, k - 1);
        let here = first_speed_at(basis, r[k].temp_c);
        if below >= here {
            below
        } else {
            here
        }
    }
}

/// `r` is the sanitized form of the user curve `points`: one point per
/// distinct clamped temperature, in ascending order, whose speed is the first
/// clamped speed given for that temperature raised to the highest such speed
/// at any lower temperature.
pub open spec fn is_sanitized_curve_of(r: Seq<FanCurvePoint>, points: Seq<FanCurvePoint>) -> bool {
    let basis = curve_basis(points);
    &&& temps_ascending(r)
    &&& forall|t: u8| #[trigger] has_temp(r, t) <==> has_temp(basis, t)
    &&& forall|k: int| 0 <= k < r.len() ==> (#[trigger] r[k]).speed_percent == speed_floor(basis, r, k)
}

/// A curve of the shape sanitizing produces: at least one point,
/// temperatures strictly ascending within 30..=95, speeds within 0..=100 and
/// never decreasing.
pub open spec fn is_well_formed_curve(r: Seq<FanCurvePoint>) -> bool {
    &&& r.len() >= 1
    &&& temps_ascending(r)
    &&& forall|k: int| 0 <= k < r.len() ==> 30 <= (#[trigger] r[k]).temp_c <= 95 && r[k].speed_percent <= 100
    &&& forall|i: int, j: int| 0 <= i <= j < r.len() ==> (#[trigger] r[i]).speed_percent <= (#[trigger] r[j]).speed_percent
}

fn clamp_point_exec(p: FanCurvePoint) -> (r: FanCurvePoint)
    ensures
        r == clamp_point(p),
{
    let temp_c = if p.temp_c < 30 {
        30
    } else if p.temp_c > 95 {
        95
    } else {
        p.temp_c
    };
    let speed_percent = if p.speed_percent > 100 {
        100
    } else {
        p.speed_percent
    };
    FanCurvePoint { temp_c, speed_percent }
}

fn default_curve_exec() -> (r: Vec<FanCurvePoint>)
    ensures
        r@ == default_curve(),
{
    let r = vec![
        FanCurvePoint { temp_c: 30, speed_percent: 0 },
        FanCurvePoint { temp_c: 49, speed_percent: 0 },
        FanCurvePoint { temp_c: 65, speed_percent: 22 },
        FanCurvePoint { temp_c: 74, speed_percent: 64 },
        FanCurvePoint { temp_c: 80, speed_percent: 100 },
    ];
    assert(r@ =~= default_curve());
    r
}

fn curve_basis_exec(points: Vec<FanCurvePoint>) -> (r: Vec<FanCurvePoint>)
    ensures
        r@ == curve_basis(points@),
{
    let n = points.len();
    if n == 0 {
        return default_curve_exec();
    }
    let mut r: Vec<FanCurvePoint> = Vec::new();
    for i in 0..n
        invariant
            n == points@.len(),
            r@ == points@.take(i as int).map_values(|p: FanCurvePoint| clamp_point(p)),
    {
        r.push(clamp_point_exec(points[i]));
        assert(points@.take(i + 1).map_values(|p: FanCurvePoint| clamp_point(p)) =~= points@.take(
            i as int,
        ).map_values(|p: FanCurvePoint| clamp_point(p)).push(clamp_point(points@[i as int])));
    }
    assert(points@.take(n as int) =~= points@);
    r
}

proof fn lemma_has_temp_push(s: Seq<FanCurvePoint>, p: FanCurvePoint, t: u8)
    ensures
        has_temp(s.push(p), t) <==> (has_temp(s, t) || p.temp_c == t),
{
    if has_temp(s, t) {
        let j = choose|j: int| 0 <= j < s.len() && (#[trigger] s[j]).temp_c == t;
        assert(s.push(p)[j] == s[j]);
    }
    if p.temp_c == t {
        assert(s.push(p)[s.len() as int] == p);
    }
    if has_temp(s.push(p), t) {
        let j = choose|j: int| 0 <= j < s.push(p).len() && (#[trigger] s.push(p)[j]).temp_c == t;
        if j < s.len() {
            assert(s[j] == s.push(p)[j]);
        }
    }
}

proof fn lemma_first_speed_push(s: Seq<FanCurvePoint>, p: FanCurvePoint, t: u8)
    ensures
        has_temp(s, t) ==> first_speed_at(s.push(p), t) == first_speed_at(s, t),
        !has_temp(s, t) && p.temp_c == t ==> first_speed_at(s.push(p), t) == p.speed_percent,
{
    assert(s.push(p).drop_last() =~= s);
}

proof fn lemma_first_speed_is_some_speed(s: Seq<FanCurvePoint>, t: u8)
    requires
        has_temp(s, t),
    ensures
        exists|j: int| 0 <= j < s.len() && (#[trigger] s[j]).temp_c == t && s[j].speed_percent == first_speed_at(s, t),
    decreases s.len(),
{
    let d = s.drop_last();
    if has_temp(d, t) {
        lemma_first_speed_is_some_speed(d, t);
        let j = choose|j: int| 0 <= j < d.len() && (#[trigger] d[j]).temp_c == t && d[j].speed_percent == first_speed_at(d, t);
        assert(s[j] == d[j]);
    } else {
        let j = choose|j: int| 0 <= j < s.len() && (#[trigger] s[j]).temp_c == t;
        if j < s.len() - 1 {
            assert(d[j] == s[j]);
        }
        assert(s[s.len() - 1] == s.last());
    }
}

proof fn lemma_speed_floor_same_temps(
    basis: Seq<FanCurvePoint>,
    r1: Seq<FanCurvePoint>,
    r2: Seq<FanCurvePoint>,
    k: int,
)
    requires
        0 <= k < r1.len(),
        k < r2.len(),
        forall|j: int| 0 <= j <= k ==> (#[trigger] r1[j]).temp_c == r2[j].temp_c,
    ensures
        speed_floor(basis, r1, k) == speed_floor(basis, r2, k),
    decreases k,
{
    if k > 0 {
        lemma_speed_floor_same_temps(basis, r1, r2, k - 1);
        assert(r1[k].temp_c == r2[k].temp_c);
    } else {
        assert(r1[0].temp_c == r2[0].temp_c);
    }
}

/// The dedup stage: one point per distinct temperature of `basis`, ascending,
/// each with the first speed given for its temperature.
fn dedup_ascending(basis: &Vec<FanCurvePoint>) -> (d: Vec<FanCurvePoint>)
    ensures
        temps_ascending(d@),
        forall|t: u8| #[trigger] has_temp(d@, t) <==> has_temp(basis@, t),
        forall|k: int|
            0 <= k < d@.len() ==> (#[trigger] d@[k]).speed_percent == first_speed_at(basis@, d@[k].temp_c),
{
    let n = basis.len();
    let mut d: Vec<FanCurvePoint> = Vec::new();
    for i in 0..n
        invariant
            n == basis@.len(),
            temps_ascending(d@),
            forall|t: u8| #[trigger] has_temp(d@, t) <==> has_temp(basis@.take(i as int), t),
            forall|k: int|
                0 <= k < d@.len() ==> (#[trigger] d@[k]).speed_percent == first_speed_at(
                    basis@.take(i as int),
                    d@[k].temp_c,
                ),
    {
        let p = basis[i];
        let ghost prefix = basis@.take(i as int);
        let ghost next = basis@.take(i + 1);
        assert(next =~= prefix.push(p));
        let m = d.len();
        let mut pos: usize = 0;
        while pos < m && d[pos].temp_c < p.temp_c
            invariant
                m == d@.len(),
                pos <= m,
                forall|j: int| 0 <= j < pos ==> (#[trigger] d@[j]).temp_c < p.temp_c,
            decreases m - pos,
        {
            pos = pos + 1;
        }
        let present = pos < m && d[pos].temp_c == p.temp_c;
        if present {
            assert(has_temp(d@, p.temp_c));
            assert forall|t: u8| #[trigger] has_temp(d@, t) <==> has_temp(next, t) by {
                lemma_has_temp_push(prefix, p, t);
            }
            assert forall|k: int|
                0 <= k < d@.len() implies (#[trigger] d@[k]).speed_percent == first_speed_at(
                next,
                d@[k].temp_c,
            ) by {
                lemma_first_speed_push(prefix, p, d@[k].temp_c);
                assert(has_temp(d@, d@[k].temp_c));
            }
        } else {
            assert(!has_temp(d@, p.temp_c)) by {
                if has_temp(d@, p.temp_c) {
                    let j = choose|j: int| 0 <= j < d@.len() && (#[trigger] d@[j]).temp_c == p.temp_c;
                    if j >= pos {
                        if j > pos {
                            assert(d@[pos as int].temp_c < d@[j].temp_c);
                        }
                    }
                }
            }
            let ghost old_d = d@;
            d.insert(pos, p);
            assert(d@ == old_d.insert(pos as int, p));
            assert forall|a: int, b: int| 0 <= a < b < d@.len() implies (#[trigger] d@[a]).temp_c < (
            #[trigger] d@[b]).temp_c by {
                if b < pos {
                    assert(d@[a] == old_d[a] && d@[b] == old_d[b]);
                } else if b == pos {
                    assert(d@[a] == old_d[a]);
                } else if a < pos {
                    assert(d@[a] == old_d[a] && d@[b] == old_d[b - 1]);
                    if b - 1 > pos {
                        assert(old_d[pos as int].temp_c < old_d[b - 1].temp_c);
                    }
                } else if a == pos {
                    assert(d@[b] == old_d[b - 1]);
                    if b - 1 > pos {
                        assert(old_d[pos as int].temp_c < old_d[b - 1].temp_c);
                    }
                } else {
                    assert(d@[a] == old_d[a - 1] && d@[b] == old_d[b - 1]);
                }
            }
            assert forall|t: u8| #[trigger] has_temp(d@, t) <==> has_temp(next, t) by {
                lemma_has_temp_push(prefix, p, t);
                if has_temp(old_d, t) {
                    let j = choose|j: int| 0 <= j < old_d.len() && (#[trigger] old_d[j]).temp_c == t;
                    if j < pos {
                        assert(d@[j] == old_d[j]);
                    } else {
                        assert(d@[j + 1] == old_d[j]);
                    }
                }
                if t == p.temp_c {
                    assert(d@[pos as int] == p);
                }
                if has_temp(d@, t) {
                    let j = choose|j: int| 0 <= j < d@.len() && (#[trigger] d@[j]).temp_c == t;
                    if j < pos {
                        assert(d@[j] == old_d[j]);
                    } else if j > pos {
                        assert(d@[j] == old_d[j - 1]);
                    }
                }
            }
            assert forall|k: int|
                0 <= k < d@.len() implies (#[trigger] d@[k]).speed_percent == first_speed_at(
                next,
                d@[k].temp_c,
            ) by {
                if k == pos {
                    lemma_first_speed_push(prefix, p, p.temp_c);
                } else {
                    let j = if k < pos {
                        k
                    } else {
                        k - 1
                    };
                    assert(d@[k] == old_d[j]);
                    assert(has_temp(old_d, old_d[j].temp_c));
                    lemma_first_speed_push(prefix, p, d@[k].temp_c);
                }
            }
        }
    }
    assert(basis@.take(n as int) =~= basis@);
    d
}

/// Sanitizes one fan curve: temperatures are clamped to 30..=95 and speeds
/// to 0..=100, an empty curve becomes the default curve, points are ordered
/// by temperature keeping the first point given for each temperature, and
/// every speed is raised to the highest speed at a lower temperature.
pub fn sanitize_curve_points(points: Vec<FanCurvePoint>) -> (r: Vec<FanCurvePoint>)
    ensures
        is_sanitized_curve_of(r@, points@),
        is_well_formed_curve(r@),
{
    let ghost input = points@;
    let basis = curve_basis_exec(points);
    let mut d = dedup_ascending(&basis);
    let ghost deduped = d@;
    let n = d.len();
    let mut floor: u8 = 0;
    let mut k: usize = 0;
    while k < n
        invariant
            n == d@.len(),
            n == deduped.len(),
            k <= n,
            forall|j: int| 0 <= j < n ==> (#[trigger] d@[j]).temp_c == deduped[j].temp_c,
            forall|j: int| k <= j < n ==> (#[trigger] d@[j]) == deduped[j],
            forall|j: int| 0 <= j < k ==> (#[trigger] d@[j]).speed_percent == speed_floor(basis@, deduped, j),
            k > 0 ==> floor == speed_floor(basis@, deduped, k - 1),
            k == 0 ==> floor == 0,
            forall|j: int|
                0 <= j < n ==> (#[trigger] deduped[j]).speed_percent == first_speed_at(basis@, deduped[j].temp_c),
        decreases n - k,
    {
        let p = d[k];
        let speed = if p.speed_percent >= floor {
            p.speed_percent
        } else {
            floor
        };
        d.set(k, FanCurvePoint { temp_c: p.temp_c, speed_percent: speed });
        floor = speed;
        k = k + 1;
    }
    proof {
        assert forall|j: int| 0 <= j < n implies (#[trigger] d@[j]).speed_percent == speed_floor(
            basis@,
            d@,
            j,
        ) by {
            lemma_speed_floor_same_temps(basis@, d@, deduped, j);
        }
        assert forall|t: u8| #[trigger] has_temp(d@, t) <==> has_temp(deduped, t) by {
            if has_temp(d@, t) {
                let j = choose|j: int| 0 <= j < d@.len() && (#[trigger] d@[j]).temp_c == t;
                assert(deduped[j].temp_c == t);
            }
            if has_temp(deduped, t) {
                let j = choose|j: int| 0 <= j < deduped.len() && (#[trigger] deduped[j]).temp_c == t;
                assert(d@[j].temp_c == t);
            }
        }
        assert(temps_ascending(d@)) by {
            assert forall|a: int, b: int| 0 <= a < b < d@.len() implies (#[trigger] d@[a]).temp_c < (
            #[trigger] d@[b]).temp_c by {
                assert(deduped[a].temp_c < deduped[b].temp_c);
            }
        }
        lemma_sanitized_is_well_formed(d@, input);
    }
    d
}

proof fn lemma_basis_bounds(points: Seq<FanCurvePoint>)
    ensures
        curve_basis(points).len() >= 1,
        forall|j: int|
            0 <= j < curve_basis(points).len() ==> 30 <= (#[trigger] curve_basis(points)[j]).temp_c <= 95
                && curve_basis(points)[j].speed_percent <= 100,
{
}

proof fn lemma_speed_floor_monotone(basis: Seq<FanCurvePoint>, r: Seq<FanCurvePoint>, i: int, j: int)
    requires
        0 <= i <= j,
    ensures
        speed_floor(basis, r, i) <= speed_floor(basis, r, j),
    decreases j - i,
{
    if i < j {
        lemma_speed_floor_monotone(basis, r, i, j - 1);
    }
}

proof fn lemma_speed_floor_bound(basis: Seq<FanCurvePoint>, r: Seq<FanCurvePoint>, k: int)
    requires
        0 <= k < r.len(),
        forall|j: int| 0 <= j < r.len() ==> has_temp(basis, (#[trigger] r[j]).temp_c),
        forall|j: int| 0 <= j < basis.len() ==> (#[trigger] basis[j]).speed_percent <= 100,
    ensures
        speed_floor(basis, r, k) <= 100,
    decreases k,
{
    lemma_first_speed_is_some_speed(basis, r[k].temp_c);
    if k > 0 {
        lemma_speed_floor_bound(basis, r, k - 1);
    }
}

/// Whatever a sanitized curve was made from, it has the shape of
/// [`is_well_formed_curve`].
pub proof fn lemma_sanitized_is_well_formed(r: Seq<FanCurvePoint>, points: Seq<FanCurvePoint>)
    requires
        is_sanitized_curve_of(r, points),
    ensures
        is_well_formed_curve(r),
{
    let basis = curve_basis(points);
    lemma_basis_bounds(points);
    assert(has_temp(basis, basis[0].temp_c));
    assert(has_temp(r, basis[0].temp_c));
    assert forall|k: int| 0 <= k < r.len() implies 30 <= (#[trigger] r[k]).temp_c <= 95
        && r[k].speed_percent <= 100 by {
        assert(has_temp(r, r[k].temp_c));
        let j = choose|j: int| 0 <= j < basis.len() && (#[trigger] basis[j]).temp_c == r[k].temp_c;
        assert forall|m: int| 0 <= m < r.len() implies has_temp(basis, (#[trigger] r[m]).temp_c) by {
            assert(has_temp(r, r[m].temp_c));
        }
        lemma_speed_floor_bound(basis, r, k);
    }
    assert forall|i: int, j: int| 0 <= i <= j < r.len() implies (#[trigger] r[i]).speed_percent <= (
    #[trigger] r[j]).speed_percent by {
        lemma_speed_floor_monotone(basis, r, i, j);
    }
}

/// Sanitizes both curves of a set (see [`sanitize_curve_points`]).
pub fn sanitize_fan_curves(curves: FanCurveSet) -> (r: FanCurveSet)
    ensures
        is_sanitized_curve_of(r.cpu@, curves.cpu@),
        is_sanitized_curve_of(r.gpu@, curves.gpu@),
        is_well_formed_curve(r.cpu@),
        is_well_formed_curve(r.gpu@),
{
    FanCurveSet { cpu: sanitize_curve_points(curves.cpu), gpu: sanitize_curve_points(curves.gpu) }
}

// ----------------------------------------------------------------------------
// Laws of sanitizing
// ----------------------------------------------------------------------------

proof fn lemma_ascending_drop_last(s: Seq<FanCurvePoint>, t: u8)
    requires
        temps_ascending(s),
        s.len() >= 1,
    ensures
        has_temp(s.drop_last(), t) <==> (has_temp(s, t) && t != s.last().temp_c),
        temps_ascending(s.drop_last()),
        has_temp(s, t) ==> t <= s.last().temp_c,
{
    let d = s.drop_last();
    if has_temp(d, t) {
        let j = choose|j: int| 0 <= j < d.len() && (#[trigger] d[j]).temp_c == t;
        assert(s[j] == d[j]);
        assert(s[j].temp_c < s[s.len() - 1].temp_c);
    }
    if has_temp(s, t) && t != s.last().temp_c {
        let j = choose|j: int| 0 <= j < s.len() && (#[trigger] s[j]).temp_c == t;
        assert(j != s.len() - 1);
        assert(d[j] == s[j]);
    }
    if has_temp(s, t) {
        let j = choose|j: int| 0 <= j < s.len() && (#[trigger] s[j]).temp_c == t;
        if j < s.len() - 1 {
            assert(s[j].temp_c < s[s.len() - 1].temp_c);
        }
    }
    assert forall|a: int, b: int| 0 <= a < b < d.len() implies (#[trigger] d[a]).temp_c < (
    #[trigger] d[b]).temp_c by {
        assert(d[a] == s[a] && d[b] == s[b]);
    }
}

/// Two curves with strictly ascending temperatures and the same set of
/// temperatures have the same temperature at every position.
proof fn lemma_ascending_same_temps(s1: Seq<FanCurvePoint>, s2: Seq<FanCurvePoint>)
    requires
        temps_ascending(s1),
        temps_ascending(s2),
        forall|t: u8| #[trigger] has_temp(s1, t) <==> has_temp(s2, t),
    ensures
        s1.len() == s2.len(),
        forall|j: int| 0 <= j < s1.len() ==> (#[trigger] s1[j]).temp_c == s2[j].temp_c,
    decreases s1.len() + s2.len(),
{
    if s1.len() == 0 {
        if s2.len() > 0 {
            assert(has_temp(s2, s2[0].temp_c));
            assert(!has_temp(s1, s2[0].temp_c));
        }
    } else if s2.len() == 0 {
        assert(has_temp(s1, s1[0].temp_c));
    } else {
        let m1 = s1.last().temp_c;
        let m2 = s2.last().temp_c;
        assert(has_temp(s1, m1)) by {
            assert(s1[s1.len() - 1].temp_c == m1);
        }
        assert(has_temp(s2, m2)) by {
            assert(s2[s2.len() - 1].temp_c == m2);
        }
        lemma_ascending_drop_last(s1, m2);
        lemma_ascending_drop_last(s2, m1);
        assert(m1 == m2);
        assert forall|t: u8| #[trigger] has_temp(s1.drop_last(), t) <==> has_temp(s2.drop_last(), t) by {
            lemma_ascending_drop_last(s1, t);
            lemma_ascending_drop_last(s2, t);
        }
        lemma_ascending_same_temps(s1.drop_last(), s2.drop_last());
        assert forall|j: int| 0 <= j < s1.len() implies (#[trigger] s1[j]).temp_c == s2[j].temp_c by {
            if j < s1.len() - 1 {
                assert(s1.drop_last()[j] == s1[j]);
                assert(s2.drop_last()[j] == s2[j]);
            }
        }
    }
}

/// A user curve has exactly one sanitized form.
pub proof fn lemma_sanitized_form_unique(
    points: Seq<FanCurvePoint>,
    r1: Seq<FanCurvePoint>,
    r2: Seq<FanCurvePoint>,
)
    requires
        is_sanitized_curve_of(r1, points),
        is_sanitized_curve_of(r2, points),
    ensures
        r1 == r2,
{
    let basis = curve_basis(points);
    lemma_ascending_same_temps(r1, r2);
    assert forall|j: int| 0 <= j < r1.len() implies r1[j] == r2[j] by {
        lemma_speed_floor_same_temps(basis, r1, r2, j);
        assert(r1[j].speed_percent == speed_floor(basis, r1, j));
        assert(r2[j].speed_percent == speed_floor(basis, r2, j));
    }
    assert(r1 =~= r2);
}

proof fn lemma_first_speed_in_ascending(s: Seq<FanCurvePoint>, k: int)
    requires
        temps_ascending(s),
        0 <= k < s.len(),
    ensures
        first_speed_at(s, s[k].temp_c) == s[k].speed_percent,
    decreases s.len(),
{
    let d = s.drop_last();
    if k == s.len() - 1 {
        lemma_ascending_drop_last(s, s[k].temp_c);
    } else {
        assert(d[k] == s[k]);
        assert(has_temp(d, s[k].temp_c));
        lemma_ascending_drop_last(s, s[k].temp_c);
        lemma_first_speed_in_ascending(d, k);
    }
}

proof fn lemma_speed_floor_of_monotone(r: Seq<FanCurvePoint>, k: int)
    requires
        is_well_formed_curve(r),
        0 <= k < r.len(),
    ensures
        speed_floor(r, r, k) == r[k].speed_percent,
    decreases k,
{
    lemma_first_speed_in_ascending(r, k);
    if k > 0 {
        lemma_speed_floor_of_monotone(r, k - 1);
        assert(r[k - 1].speed_percent <= r[k].speed_percent);
    }
}

/// A well-formed curve is its own sanitized form.
pub proof fn lemma_well_formed_is_fixed_point(r: Seq<FanCurvePoint>)
    requires
        is_well_formed_curve(r),
    ensures
        is_sanitized_curve_of(r, r),
{
    assert(curve_basis(r) =~= r) by {
        assert forall|j: int| 0 <= j < r.len() implies clamp_point(r[j]) == r[j] by {
            assert(30 <= r[j].temp_c <= 95 && r[j].speed_percent <= 100);
        }
    }
    assert forall|k: int| 0 <= k < r.len() implies (#[trigger] r[k]).speed_percent == speed_floor(
        curve_basis(r),
        r,
        k,
    ) by {
        lemma_speed_floor_of_monotone(r, k);
    }
}

/// Sanitizing is idempotent: sanitizing an already sanitized curve gives
/// the same curve back.
pub proof fn law_sanitize_idempotent(
    points: Seq<FanCurvePoint>,
    once: Seq<FanCurvePoint>,
    twice: Seq<FanCurvePoint>,
)
    requires
        is_sanitized_curve_of(once, points),
        is_sanitized_curve_of(twice, once),
    ensures
        twice == once,
{
    lemma_sanitized_is_well_formed(once, points);
    lemma_well_formed_is_fixed_point(once);
    lemma_sanitized_form_unique(once, twice, once);
}

// ----------------------------------------------------------------------------
// Reading a speed off a curve
// ----------------------------------------------------------------------------

/// `a - b`, or 0 when `b > a` (`u8::saturating_sub`).
pub open spec fn sat_sub(a: u8, b: u8) -> int {
    if a >= b {
        a - b
    } else {
        0
    }
}

/// Integer division truncating toward zero, as Rust's `/` on signed
/// integers, for a positive divisor.
pub open spec fn trunc_div(a: int, b: int) -> int {
    if a >= 0 {
        a / b
    } else {
        -((-a) / b)
    }
}

/// The temperature span of a curve segment (at least 1).
pub open spec fn segment_span(lo: FanCurvePoint, hi: FanCurvePoint) -> int {
    if sat_sub(hi.temp_c, lo.temp_c) == 0 {
        1
    } else {
        sat_sub(hi.temp_c, lo.temp_c)
    }
}

/// Speed change over the segment times the offset of `t` into it.
pub open spec fn segment_product(lo: FanCurvePoint, hi: FanCurvePoint, t: u8) -> int {
    (hi.speed_percent - lo.speed_percent) * sat_sub(t, lo.temp_c)
}

/// The speed at `t` on the straight segment from `lo` to `hi`, truncated
/// toward zero and clamped to 0..=100.
pub open spec fn segment_speed(lo: FanCurvePoint, hi: FanCurvePoint, t: u8) -> u8 {
    let v = lo.speed_percent + trunc_div(segment_product(lo, hi, t), segment_span(lo, hi));
    if v < 0 {
        0
    } else if v > 100 {
        100
    } else {
        v as u8
    }
}

/// The speed at `t` read from the first segment at or after index `i` whose
/// upper temperature is at least `t`, or the last speed past the curve.
pub open spec fn speed_from_segment(points: Seq<FanCurvePoint>, t: u8, i: int) -> u8
    decreases points.len() - i,
{
    if i + 1 >= points.len() {
        points.last().speed_percent
    } else if t > points[i + 1].temp_c {
        speed_from_segment(points, t, i + 1)
    } else {
        segment_speed(points[i], points[i + 1], t)
    }
}

/// The fan speed a curve gives at temperature `t`: 60 for an empty curve,
/// the first speed at or below the first point, the last speed past the
/// last point, and otherwise the straight-line speed on the first segment
/// whose upper temperature is at least `t`.
pub open spec fn curve_speed(points: Seq<FanCurvePoint>, t: u8) -> u8 {
    if points.len() == 0 {
        60
    } else if t <= points[0].temp_c {
        points[0].speed_percent
    } else {
        speed_from_segment(points, t, 0)
    }
}

/// The segment product that `speed_from_segment` computes fits in `i16`.
pub open spec fn segment_fits_from(points: Seq<FanCurvePoint>, t: u8, i: int) -> bool
    decreases points.len() - i,
{
    if i + 1 >= points.len() {
        true
    } else if t > points[i + 1].temp_c {
        segment_fits_from(points, t, i + 1)
    } else {
        -32768 <= segment_product(points[i], points[i + 1], t) <= 32767
    }
}

/// Reading `t` off `points` does not overflow the 16-bit arithmetic of the
/// interpolation.
pub open spec fn interpolation_fits(points: Seq<FanCurvePoint>, t: u8) -> bool {
    points.len() == 0 || t <= points[0].temp_c || segment_fits_from(points, t, 0)
}

/// The fan speed for temperature `temp_c` on the curve `points` (see
/// [`curve_speed`]).
pub fn interpolate_curve_speed(points: &[FanCurvePoint], temp_c: u8) -> (r: u8)
    requires
        interpolation_fits(points@, temp_c),
    ensures
        r == curve_speed(points@, temp_c),
{
    let n = points.len();
    if n == 0 {
        return 60;
    }
    if temp_c <= points[0].temp_c {
        return points[0].speed_percent;
    }
    let mut i: usize = 0;
    while i + 1 < n
        invariant
            n == points@.len(),
            n >= 1,
            i < n,
            curve_speed(points@, temp_c) == speed_from_segment(points@, temp_c, i as int),
            segment_fits_from(points@, temp_c, i as int),
            temp_c > points@[i as int].temp_c,
        decreases n - i,
    {
        let lower = points[i];
        let upper = points[i + 1];
        if temp_c > upper.temp_c {
            i = i + 1;
        } else {
            let span: u32 = if upper.temp_c > lower.temp_c {
                (upper.temp_c - lower.temp_c) as u32
            } else {
                1
            };
            let offset: u32 = (temp_c - lower.temp_c) as u32;
            assert(offset <= span);
            let base: i32 = lower.speed_percent as i32;
            assert(sat_sub(temp_c, lower.temp_c) == offset);
            assert(segment_span(lower, upper) == span);
            let v: i32 = if upper.speed_percent >= lower.speed_percent {
                let rise: u32 = (upper.speed_percent - lower.speed_percent) as u32;
                assert(segment_product(lower, upper, temp_c) == rise * offset);
                let q: u32 = (rise * offset) / span;
                assert(q <= rise * offset) by (nonlinear_arith)
                    requires
                        span >= 1,
                        q == (rise * offset) as int / span as int,
                ;
                base + q as i32
            } else {
                let fall: u32 = (lower.speed_percent - upper.speed_percent) as u32;
                assert(segment_product(lower, upper, temp_c) == -(fall * offset)) by (nonlinear_arith)
                    requires
                        fall == lower.speed_percent - upper.speed_percent,
                        segment_product(lower, upper, temp_c) == (upper.speed_percent
                            - lower.speed_percent) * offset,
                ;
                let q: u32 = (fall * offset) / span;
                assert(q <= fall * offset) by (nonlinear_arith)
                    requires
                        span >= 1,
                        q == (fall * offset) as int / span as int,
                ;
                assert(q <= fall) by (nonlinear_arith)
                    requires
                        span >= 1,
                        offset <= span,
                        q == (fall * offset) as int / span as int,
                ;
                base - q as i32
            };
            let clamped: u8 = if v < 0 {
                0
            } else if v > 100 {
                100
            } else {
                v as u8
            };
            return clamped;
        }
    }
    points[n - 1].speed_percent
}

// ----------------------------------------------------------------------------
// Laws of reading a speed off a well-formed curve
// ----------------------------------------------------------------------------

proof fn lemma_segment_of_well_formed(r: Seq<FanCurvePoint>, i: int, t1: u8, t2: u8)
    requires
        is_well_formed_curve(r),
        0 <= i,
        i + 1 < r.len(),
        r[i].temp_c < t1 <= t2 <= r[i + 1].temp_c,
    ensures
        r[i].speed_percent <= segment_speed(r[i], r[i + 1], t1),
        segment_speed(r[i], r[i + 1], t1) <= segment_speed(r[i], r[i + 1], t2),
        segment_speed(r[i], r[i + 1], t2) <= r[i + 1].speed_percent,
        -32768 <= segment_product(r[i], r[i + 1], t2) <= 32767,
{
    let lo = r[i];
    let hi = r[i + 1];
    assert(lo.temp_c < hi.temp_c);
    assert(lo.speed_percent <= hi.speed_percent);
    let rise: int = hi.speed_percent - lo.speed_percent;
    let span: int = hi.temp_c - lo.temp_c;
    let o1: int = t1 - lo.temp_c;
    let o2: int = t2 - lo.temp_c;
    assert(segment_span(lo, hi) == span);
    assert(segment_product(lo, hi, t1) == rise * o1);
    assert(segment_product(lo, hi, t2) == rise * o2);
    assert(0 <= rise * o1 <= rise * o2 <= rise * span) by (nonlinear_arith)
        requires
            0 <= rise,
            0 < o1 <= o2 <= span,
    ;
    assert(rise * o2 <= 100 * 255) by (nonlinear_arith)
        requires
            0 <= rise <= 100,
            0 < o2 <= 255,
    ;
    assert((rise * o1) / span <= (rise * o2) / span) by (nonlinear_arith)
        requires
            0 <= rise * o1 <= rise * o2,
            span > 0,
    ;
    assert((rise * o2) / span <= rise) by (nonlinear_arith)
        requires
            0 <= rise * o2 <= rise * span,
            span > 0,
    ;
    assert(0 <= (rise * o1) / span) by (nonlinear_arith)
        requires
            0 <= rise * o1,
            span > 0,
    ;
}

proof fn lemma_segments_fit(r: Seq<FanCurvePoint>, t: u8, i: int)
    requires
        is_well_formed_curve(r),
        0 <= i < r.len(),
        t > r[i].temp_c,
    ensures
        segment_fits_from(r, t, i),
    decreases r.len() - i,
{
    if i + 1 < r.len() {
        if t > r[i + 1].temp_c {
            lemma_segments_fit(r, t, i + 1);
        } else {
            lemma_segment_of_well_formed(r, i, t, t);
        }
    }
}

/// Every temperature can be read off a well-formed curve without overflow.
pub proof fn lemma_well_formed_fits(r: Seq<FanCurvePoint>, t: u8)
    requires
        is_well_formed_curve(r),
    ensures
        interpolation_fits(r, t),
{
    if t > r[0].temp_c {
        lemma_segments_fit(r, t, 0);
    }
}

proof fn lemma_speed_from_segment_floor(r: Seq<FanCurvePoint>, t: u8, i: int)
    requires
        is_well_formed_curve(r),
        0 <= i < r.len(),
        t > r[i].temp_c,
    ensures
        r[i].speed_percent <= speed_from_segment(r, t, i),
    decreases r.len() - i,
{
    if i + 1 >= r.len() {
        assert(r.last() == r[r.len() - 1]);
    } else if t > r[i + 1].temp_c {
        lemma_speed_from_segment_floor(r, t, i + 1);
    } else {
        lemma_segment_of_well_formed(r, i, t, t);
    }
}

proof fn lemma_speed_from_segment_monotone(r: Seq<FanCurvePoint>, t1: u8, t2: u8, i: int)
    requires
        is_well_formed_curve(r),
        0 <= i < r.len(),
        r[i].temp_c < t1 <= t2,
    ensures
        speed_from_segment(r, t1, i) <= speed_from_segment(r, t2, i),
    decreases r.len() - i,
{
    if i + 1 < r.len() {
        if t1 > r[i + 1].temp_c {
            lemma_speed_from_segment_monotone(r, t1, t2, i + 1);
        } else if t2 <= r[i + 1].temp_c {
            lemma_segment_of_well_formed(r, i, t1, t2);
        } else {
            lemma_segment_of_well_formed(r, i, t1, t1);
            assert(segment_speed(r[i], r[i + 1], t1) <= r[i + 1].speed_percent) by {
                lemma_segment_of_well_formed(r, i, t1, r[i + 1].temp_c);
            }
            lemma_speed_from_segment_floor(r, t2, i + 1);
        }
    }
}

/// On a well-formed curve the fan speed never falls as the temperature
/// rises.
pub proof fn law_curve_speed_monotone(r: Seq<FanCurvePoint>, t1: u8, t2: u8)
    requires
        is_well_formed_curve(r),
        t1 <= t2,
    ensures
        curve_speed(r, t1) <= curve_speed(r, t2),
{
    if t1 <= r[0].temp_c {
        if t2 > r[0].temp_c {
            lemma_speed_from_segment_floor(r, t2, 0);
        }
    } else {
        lemma_speed_from_segment_monotone(r, t1, t2, 0);
    }
}

proof fn lemma_speed_at_point(r: Seq<FanCurvePoint>, k: int, i: int)
    requires
        is_well_formed_curve(r),
        0 <= i < k < r.len(),
    ensures
        speed_from_segment(r, r[k].temp_c, i) == r[k].speed_percent,
    decreases k - i,
{
    let t = r[k].temp_c;
    if i + 1 < k {
        assert(r[i + 1].temp_c < r[k].temp_c);
        lemma_speed_at_point(r, k, i + 1);
    } else {
        let lo = r[i];
        let hi = r[k];
        assert(lo.temp_c < hi.temp_c);
        assert(lo.speed_percent <= hi.speed_percent);
        let rise: int = hi.speed_percent - lo.speed_percent;
        let span: int = hi.temp_c - lo.temp_c;
        assert(segment_span(lo, hi) == span);
        assert(segment_product(lo, hi, t) == rise * span);
        assert((rise * span) / span == rise) by (nonlinear_arith)
            requires
                span > 0,
        ;
    }
}

/// A well-formed curve passes through its own points: at the temperature of
/// a point, the fan runs at that point's speed.
pub proof fn law_curve_speed_at_points(r: Seq<FanCurvePoint>, k: int)
    requires
        is_well_formed_curve(r),
        0 <= k < r.len(),
    ensures
        curve_speed(r, r[k].temp_c) == r[k].speed_percent,
{
    if k > 0 {
        assert(r[0].temp_c < r[k].temp_c);
        lemma_speed_at_point(r, k, 0);
    }
}

/// On a well-formed curve the fan speed stays between the speed of the
/// first point and the speed of the last point.
pub proof fn law_curve_speed_bounds(r: Seq<FanCurvePoint>, t: u8)
    requires
        is_well_formed_curve(r),
    ensures
        r[0].speed_percent <= curve_speed(r, t) <= r.last().speed_percent,
{
    let last = r.len() - 1;
    law_curve_speed_at_points(r, 0);
    law_curve_speed_at_points(r, last);
    assert(r[last] == r.last());
    if t <= r[0].temp_c {
        assert(r[0].speed_percent <= r[last].speed_percent);
    } else {
        law_curve_speed_monotone(r, r[0].temp_c, t);
        if t <= r[last].temp_c {
            law_curve_speed_monotone(r, t, r[last].temp_c);
        } else {
            lemma_speed_from_segment_floor(r, t, 0);
            lemma_past_last(r, t, 0);
        }
    }
}

proof fn lemma_past_last(r: Seq<FanCurvePoint>, t: u8, i: int)
    requires
        is_well_formed_curve(r),
        0 <= i < r.len(),
        t > r.last().temp_c,
    ensures
        speed_from_segment(r, t, i) == r.last().speed_percent,
    decreases r.len() - i,
{
    if i + 1 < r.len() {
        assert(r[i + 1].temp_c <= r[r.len() - 1].temp_c);
        lemma_past_last(r, t, i + 1);
    }
}

/// Whatever points a user drew, the sanitized curve's speed never falls as
/// the temperature rises and never exceeds 100%.
pub proof fn law_user_curve_speed_monotone_and_capped(
    points: Seq<FanCurvePoint>,
    r: Seq<FanCurvePoint>,
    t1: u8,
    t2: u8,
)
    requires
        is_sanitized_curve_of(r, points),
        t1 <= t2,
    ensures
        curve_speed(r, t1) <= curve_speed(r, t2),
        curve_speed(r, t2) <= 100,
{
    lemma_sanitized_is_well_formed(r, points);
    law_curve_speed_monotone(r, t1, t2);
    law_curve_speed_bounds(r, t2);
}

// ----------------------------------------------------------------------------
// Fan-control requests
// ----------------------------------------------------------------------------

/// The firmware fan behavior requested for a profile.
#[derive(Clone, Copy, Debug, PartialEq, Eq, Structural)]
pub enum FanBehavior {
    Auto,
    Max,
    Custom,
}

/// The firmware fan behavior for a fan profile: each profile selects the
/// behavior of the same name.
pub fn behavior_input_for_profile(profile_id: &FanProfileId) -> (r: FanBehavior)
    ensures
        *profile_id == FanProfileId::Auto ==> r == FanBehavior::Auto,
        *profile_id == FanProfileId::Max ==> r == FanBehavior::Max,
        *profile_id == FanProfileId::Custom ==> r == FanBehavior::Custom,
{
    match profile_id {
        FanProfileId::Auto => FanBehavior::Auto,
        FanProfileId::Max => FanBehavior::Max,
        FanProfileId::Custom => FanBehavior::Custom,
    }
}

/// What a fan-control apply writes: the profile, the curves it came from
/// (custom only), the per-fan target speeds to write, and the context that
/// the apply detail quotes.
#[derive(Clone, Debug)]
pub struct FanControlPlan {
    pub profile_id: FanProfileId,
    pub curves: Option<FanCurveSet>,
    pub cpu_speed_percent: Option<u8>,
    pub gpu_speed_percent: Option<u8>,
    pub context: String,
}

/// The context quoted for the Auto profile.
pub open spec fn auto_profile_context() -> Seq<char> {
    "Auto fan profile requested through ROOT\\WMI AcerGamingFunction."@
}

/// The context quoted for the Max profile.
pub open spec fn max_profile_context() -> Seq<char> {
    "Max fan profile requested through ROOT\\WMI AcerGamingFunction. On ANV15-52, the max behavior bit alone does not reliably drive the fans to full RPM, so AeroForge also sends explicit 100% CPU and GPU fan targets."@
}

/// The refusal of a fixed Custom profile without curves.
pub open spec fn custom_profile_without_curves_error() -> Seq<char> {
    "Custom fan mode requires explicit saved curves instead of a fallback fixed speed."@
}

/// The fan-control plan for a fixed fan profile. Auto writes only the
/// behavior; Max also writes 100% to both fans; Custom is refused, since it
/// needs saved curves.
pub fn plan_fan_profile(request: &ApplyFanProfileRequest) -> (r: Result<FanControlPlan, String>)
    ensures
        request.profile_id == FanProfileId::Auto ==> (r matches Ok(p) && p.profile_id
            == FanProfileId::Auto && p.curves is None && p.cpu_speed_percent is None
            && p.gpu_speed_percent is None && p.context@ == auto_profile_context()),
        request.profile_id == FanProfileId::Max ==> (r matches Ok(p) && p.profile_id
            == FanProfileId::Max && p.curves is None && p.cpu_speed_percent == Some(100u8)
            && p.gpu_speed_percent == Some(100u8) && p.context@ == max_profile_context()),
        request.profile_id == FanProfileId::Custom ==> (r matches Err(e) && e@
            == custom_profile_without_curves_error()),
{
    match request.profile_id {
        FanProfileId::Auto => Ok(
            FanControlPlan {
                profile_id: FanProfileId::Auto,
                curves: None,
                cpu_speed_percent: None,
                gpu_speed_percent: None,
                context: string_from("Auto fan profile requested through ROOT\\WMI AcerGamingFunction."),
            },
        ),
        FanProfileId::Max => Ok(
            FanControlPlan {
                profile_id: FanProfileId::Max,
                curves: None,
                cpu_speed_percent: Some(100),
                gpu_speed_percent: Some(100),
                context: string_from(
                    "Max fan profile requested through ROOT\\WMI AcerGamingFunction. On ANV15-52, the max behavior bit alone does not reliably drive the fans to full RPM, so AeroForge also sends explicit 100% CPU and GPU fan targets.",
                ),
            },
        ),
        FanProfileId::Custom => Err(
            string_from(
                "Custom fan mode requires explicit saved curves instead of a fallback fixed speed.",
            ),
        ),
    }
}

/// CPU and GPU temperatures read from the telemetry snapshot, when known.
#[derive(Clone, Copy, Debug, Default, PartialEq, Eq, Structural)]
pub struct CurrentTemperatures {
    pub cpu_temp_c: Option<u8>,
    pub gpu_temp_c: Option<u8>,
}

/// The temperature assumed for a fan whose temperature is unknown.
pub open spec fn fallback_temp_c() -> u8 {
    65
}

/// The temperatures and requested speeds that custom curves give for the
/// current temperatures.
#[derive(Clone, Debug)]
pub struct CustomFanTargets {
    pub curves: FanCurveSet,
    pub cpu_temp_c: u8,
    pub gpu_temp_c: u8,
    pub requested_cpu_speed: u8,
    pub requested_gpu_speed: u8,
}

/// Compresses custom curves to the current temperatures: both curves are
/// sanitized, an unknown temperature is taken as 65C, and each fan gets the
/// speed its sanitized curve gives at its temperature.
pub fn plan_custom_fan_curves(
    request: ApplyCustomFanCurvesRequest,
    temperatures: &CurrentTemperatures,
) -> (r: CustomFanTargets)
    ensures
        is_sanitized_curve_of(r.curves.cpu@, request.curves.cpu@),
        is_sanitized_curve_of(r.curves.gpu@, request.curves.gpu@),
        r.cpu_temp_c == (match temperatures.cpu_temp_c {
            Some(t) => t,
            None => fallback_temp_c(),
        }),
        r.gpu_temp_c == (match temperatures.gpu_temp_c {
            Some(t) => t,
            None => fallback_temp_c(),
        }),
        r.requested_cpu_speed == curve_speed(r.curves.cpu@, r.cpu_temp_c),
        r.requested_gpu_speed == curve_speed(r.curves.gpu@, r.gpu_temp_c),
{
    let curves = sanitize_fan_curves(request.curves);
    let cpu_temp_c = match temperatures.cpu_temp_c {
        Some(t) => t,
        None => 65,
    };
    let gpu_temp_c = match temperatures.gpu_temp_c {
        Some(t) => t,
        None => 65,
    };
    proof {
        lemma_well_formed_fits(curves.cpu@, cpu_temp_c);
        lemma_well_formed_fits(curves.gpu@, gpu_temp_c);
    }
    let requested_cpu_speed = interpolate_curve_speed(curves.cpu.as_slice(), cpu_temp_c);
    let requested_gpu_speed = interpolate_curve_speed(curves.gpu.as_slice(), gpu_temp_c);
    CustomFanTargets { curves, cpu_temp_c, gpu_temp_c, requested_cpu_speed, requested_gpu_speed }
}

/// The context a custom-curve apply quotes: per fan, its temperature, the
/// speed its curve requests and the speed written.
pub open spec fn custom_fan_context(
    cpu_temp_c: u8,
    requested_cpu: u8,
    applied_cpu: u8,
    gpu_temp_c: u8,
    requested_gpu: u8,
    applied_gpu: u8,
) -> Seq<char> {
    "Custom fan curves compressed to current-temperature targets: CPU "@ + spec_decimal(
        cpu_temp_c as nat,
    ) + "C -> requested "@ + spec_decimal(requested_cpu as nat) + "% / applied "@ + spec_decimal(
        applied_cpu as nat,
    ) + "%, GPU "@ + spec_decimal(gpu_temp_c as nat) + "C -> requested "@ + spec_decimal(
        requested_gpu as nat,
    ) + "% / applied "@ + spec_decimal(applied_gpu as nat)
        + "%. AcerGamingFunction accepts direct per-fan target speeds, not a full curve table."@
}

/// Builds the context of a custom-curve apply.
pub fn build_custom_fan_context(
    targets: &CustomFanTargets,
    applied_cpu_speed: u8,
    applied_gpu_speed: u8,
) -> (r: String)
    ensures
        r@ == custom_fan_context(
            targets.cpu_temp_c,
            targets.requested_cpu_speed,
            applied_cpu_speed,
            targets.gpu_temp_c,
            targets.requested_gpu_speed,
            applied_gpu_speed,
        ),
{
    let mut s = String::new();
    s.append("Custom fan curves compressed to current-temperature targets: CPU ");
    push_decimal(&mut s, targets.cpu_temp_c as u64);
    s.append("C -> requested ");
    push_decimal(&mut s, targets.requested_cpu_speed as u64);
    s.append("% / applied ");
    push_decimal(&mut s, applied_cpu_speed as u64);
    s.append("%, GPU ");
    push_decimal(&mut s, targets.gpu_temp_c as u64);
    s.append("C -> requested ");
    push_decimal(&mut s, targets.requested_gpu_speed as u64);
    s.append("% / applied ");
    push_decimal(&mut s, applied_gpu_speed as u64);
    s.append("%. AcerGamingFunction accepts direct per-fan target speeds, not a full curve table.");
    s
}

// ----------------------------------------------------------------------------
// Temperatures from the telemetry snapshot
// ----------------------------------------------------------------------------

/// The `u8` a JSON field holds: an integer number in 0..=255, or a text that
/// trims to a decimal `u8` literal.
pub open spec fn json_field_u8(field: JsonField) -> Option<u8> {
    match field {
        JsonField::Number(Some(n)) => if n <= 255 {
            Some(n as u8)
        } else {
            None
        },
        JsonField::Text(s) => match spec_parse_unsigned(spec_trim(s@), 10, 255) {
            Some(v) => Some(v as u8),
            None => None,
        },
        _ => None,
    }
}

/// The `u8` value of a JSON field (see [`json_field_u8`]).
pub fn value_to_u8(value: &JsonField) -> (r: Option<u8>)
    ensures
        r == json_field_u8(*value),
{
    match value {
        JsonField::Number(Some(n)) => if *n <= 255 {
            Some(*n as u8)
        } else {
            None
        },
        JsonField::Text(s) => {
            let trimmed = trim(s.as_str());
            match parse_unsigned_chars(trimmed.as_slice(), 10, 255) {
                Some(v) => Some(v as u8),
                None => None,
            }
        },
        _ => None,
    }
}

/// The first of `fields`, in order, that holds a `u8`.
pub open spec fn first_field_u8(fields: Seq<JsonField>) -> Option<u8>
    decreases fields.len(),
{
    if fields.len() == 0 {
        None
    } else {
        match json_field_u8(fields[0]) {
            Some(v) => Some(v),
            None => first_field_u8(fields.drop_first()),
        }
    }
}

/// The first `u8` among the fields read for a list of keys, in key order.
pub fn get_u8(fields: &[JsonField]) -> (r: Option<u8>)
    ensures
        r == first_field_u8(fields@),
{
    let n = fields.len();
    let mut i: usize = 0;
    assert(fields@.subrange(0, n as int) =~= fields@);
    while i < n
        invariant
            n == fields@.len(),
            i <= n,
            first_field_u8(fields@) == first_field_u8(fields@.subrange(i as int, n as int)),
        decreases n - i,
    {
        assert(fields@.subrange(i as int, n as int).drop_first() =~= fields@.subrange(i + 1, n as int));
        let v = value_to_u8(&fields[i]);
        if v.is_some() {
            return v;
        }
        i = i + 1;
    }
    None
}

/// The temperatures held by the telemetry snapshot's fields: the CPU takes
/// `cpuTempAverageC`, else `cpuTempC`; the GPU takes `gpuTempC`.
pub fn current_temperatures_from_fields(
    cpu_average: JsonField,
    cpu: JsonField,
    gpu: JsonField,
) -> (r: CurrentTemperatures)
    ensures
        r.cpu_temp_c == first_field_u8(seq![cpu_average, cpu]),
        r.gpu_temp_c == first_field_u8(seq![gpu]),
{
    let cpu_fields = vec![cpu_average, cpu];
    let gpu_fields = vec![gpu];
    proof {
        assert(cpu_fields@ =~= seq![cpu_average, cpu]);
        assert(gpu_fields@ =~= seq![gpu]);
    }
    CurrentTemperatures {
        cpu_temp_c: get_u8(cpu_fields.as_slice()),
        gpu_temp_c: get_u8(gpu_fields.as_slice()),
    }
}

/// The temperatures in the telemetry snapshot text `raw` (`None` when the
/// snapshot could not be read). Unreadable or unparsable snapshots give no
/// temperatures.
pub fn read_current_temperatures(raw: Option<&str>) -> (r: CurrentTemperatures)
    ensures
        raw is None ==> r.cpu_temp_c is None && r.gpu_temp_c is None,
        raw matches Some(t) && !json_text_parses(t@) ==> r.cpu_temp_c is None && r.gpu_temp_c
            is None,
        raw matches Some(t) ==> (json_from_text(t@) matches Some(doc) ==> (r.cpu_temp_c
            == first_field_u8(seq![json_member(doc, "cpuTempAverageC"@), json_member(doc, "cpuTempC"@)])
            && r.gpu_temp_c == first_field_u8(seq![json_member(doc, "gpuTempC"@)]))),
{
    let raw = match raw {
        Some(raw) => raw,
        None => return CurrentTemperatures { cpu_temp_c: None, gpu_temp_c: None },
    };
    let doc = match parse_json_text(raw) {
        Ok(doc) => doc,
        Err(_) => return CurrentTemperatures { cpu_temp_c: None, gpu_temp_c: None },
    };
    current_temperatures_from_fields(
        json_field(&doc, "cpuTempAverageC"),
        json_field(&doc, "cpuTempC"),
        json_field(&doc, "gpuTempC"),
    )
}

// ----------------------------------------------------------------------------
// Apply detail
// ----------------------------------------------------------------------------

/// The per-fan speed part of the apply detail.
pub open spec fn fan_speed_detail(cpu: Option<u8>, gpu: Option<u8>) -> Seq<char> {
    match (cpu, gpu) {
        (Some(c), Some(g)) => "CPU speed "@ + spec_decimal(c as nat) + "%, GPU speed "@
            + spec_decimal(g as nat) + "%."@,
        _ => "No explicit per-fan speed write was required for this profile."@,
    }
}

/// The detail recorded for a fan-control apply.
pub open spec fn fan_apply_detail(
    profile_id: Seq<char>,
    context: Seq<char>,
    behavior_input: u64,
    cpu: Option<u8>,
    gpu: Option<u8>,
) -> Seq<char> {
    "Fan profile "@ + profile_id
        + " was applied through direct AcerGamingFunction WMI/ACPI calls. "@ + context
        + " Behavior input 0x"@ + spec_hex_padded(behavior_input as nat, 8) + ". "@
        + fan_speed_detail(cpu, gpu) + " RPM movement is verified separately through telemetry."@
}

/// Builds the detail recorded for a fan-control apply.
pub fn build_apply_detail(
    profile_id: &str,
    context: &str,
    behavior_input: u64,
    cpu_speed_percent: Option<u8>,
    gpu_speed_percent: Option<u8>,
) -> (r: String)
    ensures
        r@ == fan_apply_detail(
            profile_id@,
            context@,
            behavior_input,
            cpu_speed_percent,
            gpu_speed_percent,
        ),
{
    let mut s = String::new();
    s.append("Fan profile ");
    s.append(profile_id);
    s.append(" was applied through direct AcerGamingFunction WMI/ACPI calls. ");
    s.append(context);
    s.append(" Behavior input 0x");
    push_hex_padded(&mut s, behavior_input, 8);
    s.append(". ");
    match (cpu_speed_percent, gpu_speed_percent) {
        (Some(cpu), Some(gpu)) => {
            s.append("CPU speed ");
            push_decimal(&mut s, cpu as u64);
            s.append("%, GPU speed ");
            push_decimal(&mut s, gpu as u64);
            s.append("%.");
        },
        _ => {
            s.append("No explicit per-fan speed write was required for this profile.");
        },
    }
    s.append(" RPM movement is verified separately through telemetry.");
    assert(s@ =~= fan_apply_detail(
        profile_id@,
        context@,
        behavior_input,
        cpu_speed_percent,
        gpu_speed_percent,
    ));
    s
}

// ----------------------------------------------------------------------------
// Applied fan control
// ----------------------------------------------------------------------------

/// The fan-control plan for custom curves compressed to the current
/// temperatures: the profile is Custom, the sanitized curves are kept, the
/// given per-fan speeds are written, and the context quotes temperature,
/// requested and written speed for each fan.
pub fn plan_custom_fan_control(targets: CustomFanTargets, cpu_speed: u8, gpu_speed: u8) -> (r:
    FanControlPlan)
    ensures
        r.profile_id == FanProfileId::Custom,
        r.curves == Some(targets.curves),
        r.cpu_speed_percent == Some(cpu_speed),
        r.gpu_speed_percent == Some(gpu_speed),
        r.context@ == custom_fan_context(
            targets.cpu_temp_c,
            targets.requested_cpu_speed,
            cpu_speed,
            targets.gpu_temp_c,
            targets.requested_gpu_speed,
            gpu_speed,
        ),
{
    let context = build_custom_fan_context(&targets, cpu_speed, gpu_speed);
    FanControlPlan {
        profile_id: FanProfileId::Custom,
        curves: Some(targets.curves),
        cpu_speed_percent: Some(cpu_speed),
        gpu_speed_percent: Some(gpu_speed),
        context,
    }
}

/// The applied snapshot of a fan-control plan once the firmware took the
/// behavior (`behavior_input`) and the planned speeds: it records the
/// plan's profile, curves and speeds, the readback and the apply detail.
pub fn finish_fan_control(
    plan: FanControlPlan,
    behavior_input: u64,
    readback: Option<String>,
    applied_at_unix: u64,
) -> (r: AppliedFanControlSnapshot)
    ensures
        r.profile_id == plan.profile_id,
        r.curves == plan.curves,
        r.cpu_speed_percent == plan.cpu_speed_percent,
        r.gpu_speed_percent == plan.gpu_speed_percent,
        r.readback == readback,
        r.applied_at_unix == applied_at_unix,
        r.detail@ == fan_apply_detail(
            fan_profile_name(plan.profile_id),
            plan.context@,
            behavior_input,
            plan.cpu_speed_percent,
            plan.gpu_speed_percent,
        ),
{
    let detail = build_apply_detail(
        plan.profile_id.as_str(),
        plan.context.as_str(),
        behavior_input,
        plan.cpu_speed_percent,
        plan.gpu_speed_percent,
    );
    AppliedFanControlSnapshot {
        profile_id: plan.profile_id,
        curves: plan.curves,
        cpu_speed_percent: plan.cpu_speed_percent,
        gpu_speed_percent: plan.gpu_speed_percent,
        readback,
        applied_at_unix,
        detail,
    }
}

// ----------------------------------------------------------------------------
// Firmware fan writes
// ----------------------------------------------------------------------------

/// One AcerGamingFunction fan write.
#[derive(Clone, Copy, Debug, PartialEq, Eq, Structural)]
pub enum FanWrite {
    /// `SetGamingFanBehavior` with this input.
    Behavior(u64),
    /// `SetGamingFanSpeed` of the CPU fan to this percentage.
    CpuSpeed(u8),
    /// `SetGamingFanSpeed` of the GPU fan to this percentage.
    GpuSpeed(u8),
}

/// The writes of a fan-control plan, in order: the behavior, then the CPU
/// speed when one is planned, then the GPU speed when one is planned.
pub open spec fn spec_fan_writes(
    cpu: Option<u8>,
    gpu: Option<u8>,
    behavior_input: u64,
) -> Seq<FanWrite> {
    seq![FanWrite::Behavior(behavior_input)] + (match cpu {
        Some(c) => seq![FanWrite::CpuSpeed(c)],
        None => Seq::empty(),
    }) + (match gpu {
        Some(g) => seq![FanWrite::GpuSpeed(g)],
        None => Seq::empty(),
    })
}

/// Every write of a fan-control plan is made and nothing else: the behavior
/// first, then one speed write per planned fan speed, each with the planned
/// percentage; a fan with no planned speed gets no speed write.
pub proof fn law_every_planned_speed_is_written(cpu: Option<u8>, gpu: Option<u8>, behavior_input: u64)
    ensures
        ({
            let w = spec_fan_writes(cpu, gpu, behavior_input);
            &&& w.len() == 1 + (if cpu is Some { 1int } else { 0int }) + (if gpu is Some {
                1int
            } else {
                0int
            })
            &&& w[0] == FanWrite::Behavior(behavior_input)
            &&& (cpu matches Some(c) ==> w.contains(FanWrite::CpuSpeed(c)))
            &&& (gpu matches Some(g) ==> w.contains(FanWrite::GpuSpeed(g)))
            &&& forall|i: int|
                0 <= i < w.len() ==> (#[trigger] w[i] matches FanWrite::CpuSpeed(c) ==> cpu == Some(c))
            &&& forall|i: int|
                0 <= i < w.len() ==> (#[trigger] w[i] matches FanWrite::GpuSpeed(g) ==> gpu == Some(g))
            &&& forall|i: int| 1 <= i < w.len() ==> !(#[trigger] w[i] is Behavior)
        }),
{
    let w = spec_fan_writes(cpu, gpu, behavior_input);
    match cpu {
        Some(c) => {
            assert(w[1] == FanWrite::CpuSpeed(c));
        },
        None => {},
    }
    match gpu {
        Some(g) => {
            assert(w[w.len() - 1] == FanWrite::GpuSpeed(g));
        },
        None => {},
    }
}

/// The writes of a fan-control plan (see [`spec_fan_writes`]).
pub fn fan_writes(plan: &FanControlPlan, behavior_input: u64) -> (r: Vec<FanWrite>)
    ensures
        r@ == spec_fan_writes(plan.cpu_speed_percent, plan.gpu_speed_percent, behavior_input),
        r@.len() == 1 + (if plan.cpu_speed_percent is Some { 1int } else { 0int }) + (
        if plan.gpu_speed_percent is Some {
            1int
        } else {
            0int
        }),
        r@[0] == FanWrite::Behavior(behavior_input),
        plan.cpu_speed_percent matches Some(c) ==> r@.contains(FanWrite::CpuSpeed(c)),
        plan.gpu_speed_percent matches Some(g) ==> r@.contains(FanWrite::GpuSpeed(g)),
{
    let mut r: Vec<FanWrite> = Vec::new();
    r.push(FanWrite::Behavior(behavior_input));
    match plan.cpu_speed_percent {
        Some(c) => r.push(FanWrite::CpuSpeed(c)),
        None => {},
    }
    match plan.gpu_speed_percent {
        Some(g) => r.push(FanWrite::GpuSpeed(g)),
        None => {},
    }
    assert(r@ =~= spec_fan_writes(plan.cpu_speed_percent, plan.gpu_speed_percent, behavior_input));
    proof {
        law_every_planned_speed_is_written(plan.cpu_speed_percent, plan.gpu_speed_percent, behavior_input);
    }
    r
}

/// A fan-control apply in progress: the plan, the behavior input, its
/// writes and the index of the write that is awaited.
#[derive(Debug)]
pub struct FanApply {
    pub plan: FanControlPlan,
    pub behavior_input: u64,
    pub writes: Vec<FanWrite>,
    pub index: usize,
}

/// A fan-control apply after a step: the next write, with the apply that
/// awaits it, or the result.
#[derive(Debug)]
pub enum FanStep {
    Write(FanApply, FanWrite),
    Finish(Result<AppliedFanControlSnapshot, String>),
}

/// The writes of a fan apply are its plan's, and one of them is awaited.
pub open spec fn fan_apply_wf(s: FanApply) -> bool {
    &&& s.writes@ == spec_fan_writes(s.plan.cpu_speed_percent, s.plan.gpu_speed_percent, s.behavior_input)
    &&& s.index < s.writes@.len()
}

/// Starts a fan-control apply with its first write, the behavior.
pub fn start_fan_apply(plan: FanControlPlan, behavior_input: u64) -> (r: FanStep)
    ensures
        r matches FanStep::Write(a, w) && fan_apply_wf(a) && a.plan == plan && a.behavior_input
            == behavior_input && a.index == 0 && w == FanWrite::Behavior(behavior_input),
{
    let writes = fan_writes(&plan, behavior_input);
    let first = writes[0];
    FanStep::Write(FanApply { plan, behavior_input, writes, index: 0 }, first)
}

/// Takes a fan-control apply one step, from the outcome of the awaited
/// write: a failed write ends the apply with its error, and no later write
/// is made; otherwise the next write follows, and after the last one the
/// apply ends with the snapshot [`finish_fan_control`] records, with
/// `readback` (the record of the writes) and `applied_at_unix`.
pub fn next_fan_action(
    s: FanApply,
    outcome: Result<(), String>,
    readback: Option<String>,
    applied_at_unix: u64,
) -> (r: FanStep)
    requires
        fan_apply_wf(s),
    ensures
        outcome matches Err(e) ==> r == FanStep::Finish(Err(e)),
        outcome is Ok && s.index + 1 < s.writes@.len() ==> (r matches FanStep::Write(a, w)
            && fan_apply_wf(a) && a.plan == s.plan && a.behavior_input == s.behavior_input
            && a.index == s.index + 1 && w == s.writes@[s.index + 1]),
        outcome is Ok && s.index + 1 == s.writes@.len() ==> (r matches FanStep::Finish(Ok(a)) && {
            &&& a.profile_id == s.plan.profile_id
            &&& a.curves == s.plan.curves
            &&& a.cpu_speed_percent == s.plan.cpu_speed_percent
            &&& a.gpu_speed_percent == s.plan.gpu_speed_percent
            &&& a.readback == readback
            &&& a.applied_at_unix == applied_at_unix
            &&& a.detail@ == fan_apply_detail(
                fan_profile_name(s.plan.profile_id),
                s.plan.context@,
                s.behavior_input,
                s.plan.cpu_speed_percent,
                s.plan.gpu_speed_percent,
            )
        }),
{
    let FanApply { plan, behavior_input, writes, index } = s;
    match outcome {
        Err(e) => FanStep::Finish(Err(e)),
        Ok(()) => {
            if index + 1 < writes.len() {
                let next = writes[index + 1];
                FanStep::Write(FanApply { plan, behavior_input, writes, index: index + 1 }, next)
            } else {
                FanStep::Finish(Ok(finish_fan_control(plan, behavior_input, readback, applied_at_unix)))
            }
        },
    }
}

} // verus!
