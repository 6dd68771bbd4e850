//! The uniform spatial hash behind projectile collisions.
//!
//! The playfield is cut into square buckets of side `BUCKET_SIZE`. Every
//! living enemy is filed under the bucket its position falls in, and a
//! projectile is tested against the enemies of its own bucket and of the
//! eight around it. No hit radius exceeds the bucket size, so nothing in
//! reach is missed.

use std::collections::HashMap;
use vstd::prelude::*;
use crate::enemy::entities::Enemy;
use crate::simulation::constants::BUCKET_SIZE;
use crate::units::{abs, Vec2};

verus! {

/// Bucket coordinate of a screen coordinate: `v / BUCKET_SIZE`, rounded
/// down.
pub open spec fn bucket_of(v: i32) -> int {
    v as int / BUCKET_SIZE as int
}

/// The key under which the bucket `(bx, by)` is filed. Distinct buckets
/// of the playfield have distinct keys.
pub open spec fn bucket_key(bx: int, by: int) -> int {
    (bx + 32768) * 65536 + (by + 32768)
}

/// The key of the bucket in which `p` falls.
pub open spec fn key_of(p: Vec2) -> int {
    bucket_key(bucket_of(p.x), bucket_of(p.y))
}

/// Bucket coordinates stay far within the range of a key's half.
pub proof fn lemma_bucket_range(v: i32)
    ensures
        -21475 <= bucket_of(v) <= 21474,
{
}

/// Bucket keys tell buckets apart.
pub proof fn lemma_key_injective(ax: int, ay: int, bx: int, by: int)
    requires
        -32768 <= ax < 32768,
        -32768 <= ay < 32768,
        -32768 <= bx < 32768,
        -32768 <= by < 32768,
        bucket_key(ax, ay) == bucket_key(bx, by),
    ensures
        ax == bx,
        ay == by,
{
}

/// Bucket coordinate of a screen coordinate.
pub fn bucket_index(v: i32) -> (b: i32)
    ensures
        b == bucket_of(v),
{
    if v >= 0 {
        v / BUCKET_SIZE
    } else {
        let m: i64 = -(v as i64);
        let q: i64 = (m + (BUCKET_SIZE as i64 - 1)) / (BUCKET_SIZE as i64);
        (-q) as i32
    }
}

/// The key under which the bucket `(bx, by)` is filed.
pub fn bucket_key_of(bx: i32, by: i32) -> (k: u64)
    requires
        -32768 <= bx < 32768,
        -32768 <= by < 32768,
    ensures
        k == bucket_key(bx as int, by as int),
{
    ((bx as i64 + 32768) * 65536 + (by as i64 + 32768)) as u64
}

/// Whether a projectile at `p` hits `enemy`: whether the enemy is alive and
/// `p` lies strictly within its archetype's hit radius.
pub open spec fn can_hit(enemy: Enemy, p: Vec2) -> bool {
    enemy.alive() && p.within(enemy.position, enemy.enemy_type.hit_radius() as int)
}

/// Place of the bucket of `e` in the order in which the nine buckets
/// around `p` are read: column by column, each from the top.
pub open spec fn scan_rank(e: Vec2, p: Vec2) -> int {
    (bucket_of(e.x) - bucket_of(p.x) + 1) * 3 + (bucket_of(e.y) - bucket_of(p.y) + 1)
}

/// Whether enemy `i` is the one a projectile at `p` hits: the first, in
/// the order of buckets and within a bucket in the order of the list, among
/// all the enemies that it can hit.
pub open spec fn is_hit(enemies: Seq<Enemy>, p: Vec2, i: int) -> bool {
    &&& 0 <= i < enemies.len()
    &&& can_hit(enemies[i], p)
    &&& forall|j: int|
        0 <= j < enemies.len() && #[trigger] can_hit(enemies[j], p) ==> {
            ||| scan_rank(enemies[i].position, p) < scan_rank(enemies[j].position, p)
            ||| (scan_rank(enemies[i].position, p) == scan_rank(enemies[j].position, p) && i <= j)
        }
}

/// The enemy a projectile at `p` hits; `None` if it can hit none.
pub open spec fn hit_index(enemies: Seq<Enemy>, p: Vec2) -> Option<int> {
    if exists|i: int| is_hit(enemies, p, i) {
        Some(choose|i: int| is_hit(enemies, p, i))
    } else {
        None
    }
}

/// A projectile hits one enemy at most.
pub proof fn lemma_hit_unique(enemies: Seq<Enemy>, p: Vec2, i: int, j: int)
    requires
        is_hit(enemies, p, i),
        is_hit(enemies, p, j),
    ensures
        i == j,
{
}

/// Two coordinates closer than a bucket's side fall in the same bucket or
/// in neighbours.
pub proof fn lemma_close_buckets(a: i32, b: i32)
    requires
        abs(a - b) < BUCKET_SIZE,
    ensures
        -1 <= bucket_of(a) - bucket_of(b) <= 1,
{
}

/// What a projectile can hit lies in the block of three by three buckets
/// around it: its rank in the reading order is one of the nine.
pub proof fn lemma_hit_is_near(enemy: Enemy, p: Vec2)
    requires
        can_hit(enemy, p),
    ensures
        -1 <= bucket_of(enemy.position.x) - bucket_of(p.x) <= 1,
        -1 <= bucket_of(enemy.position.y) - bucket_of(p.y) <= 1,
        0 <= scan_rank(enemy.position, p) < 9,
{
    let r = enemy.enemy_type.hit_radius() as int;
    let dx = p.x - enemy.position.x;
    let dy = p.y - enemy.position.y;
    assert(0 < r <= BUCKET_SIZE);
    assert(abs(dx) < r && abs(dy) < r) by (nonlinear_arith)
        requires
            dx * dx + dy * dy < r * r,
            r > 0,
    ;
    lemma_close_buckets(enemy.position.x, p.x);
    lemma_close_buckets(enemy.position.y, p.y);
}

/// The grid search loses nothing against a search of all enemies: a
/// projectile has an enemy it hits exactly when some enemy, anywhere in the
/// list, is alive and within its hit radius of the projectile.
pub proof fn lemma_hit_exists(enemies: Seq<Enemy>, p: Vec2)
    ensures
        hit_index(enemies, p).is_some() <==> exists|j: int|
            0 <= j < enemies.len() && can_hit(#[trigger] enemies[j], p),
        hit_index(enemies, p) matches Some(i) ==> is_hit(enemies, p, i),
{
    if exists|j: int| 0 <= j < enemies.len() && can_hit(#[trigger] enemies[j], p) {
        let j = choose|j: int| 0 <= j < enemies.len() && can_hit(#[trigger] enemies[j], p);
        lemma_first_hit(enemies, p, enemies.len() as int, j);
    }
    if hit_index(enemies, p).is_some() {
        let i = choose|i: int| is_hit(enemies, p, i);
        assert(can_hit(enemies[i], p));
    }
}

/// Whether enemy `i` is the first that a projectile at `p` can hit among
/// the first `n` enemies.
pub open spec fn is_hit_among(enemies: Seq<Enemy>, p: Vec2, n: int, i: int) -> bool {
    &&& 0 <= i < n
    &&& can_hit(enemies[i], p)
    &&& forall|j: int|
        0 <= j < n && #[trigger] can_hit(enemies[j], p) ==> {
            ||| scan_rank(enemies[i].position, p) < scan_rank(enemies[j].position, p)
            ||| (scan_rank(enemies[i].position, p) == scan_rank(enemies[j].position, p) && i <= j)
        }
}

/// Among the first `n` enemies, of which one can be hit, one is hit.
proof fn lemma_first_hit(enemies: Seq<Enemy>, p: Vec2, n: int, j: int)
    requires
        0 <= j < n <= enemies.len(),
        can_hit(enemies[j], p),
    ensures
        exists|i: int| is_hit_among(enemies, p, n, i),
        n == enemies.len() ==> exists|i: int| is_hit(enemies, p, i),
    decreases n,
{
    let last = n - 1;
    if exists|k: int| 0 <= k < last && can_hit(#[trigger] enemies[k], p) {
        let k = choose|k: int| 0 <= k < last && can_hit(#[trigger] enemies[k], p);
        lemma_first_hit(enemies, p, last, k);
        let best = choose|i: int| is_hit_among(enemies, p, last, i);
        if can_hit(enemies[last], p) && scan_rank(enemies[last].position, p) < scan_rank(
            enemies[best].position,
            p,
        ) {
            assert(is_hit_among(enemies, p, n, last));
        } else {
            assert(is_hit_among(enemies, p, n, best));
        }
    } else {
        assert(j == n - 1);
        assert(is_hit_among(enemies, p, n, j));
    }
    if n == enemies.len() {
        let i = choose|i: int| is_hit_among(enemies, p, n, i);
        assert(is_hit(enemies, p, i));
    }
}

/// The enemies filed under the key `k`, in the order in which they were
/// filed; none for a key that was never used.
pub open spec fn bucket_list(map: Map<u64, Vec<usize>>, k: u64) -> Seq<usize> {
    if map.contains_key(k) {
        map[k]@
    } else {
        Seq::empty()
    }
}

/// Whether enemy `i` is filed under the key `k`.
pub open spec fn listed(map: Map<u64, Vec<usize>>, k: u64, i: int) -> bool {
    exists|t: int| 0 <= t < bucket_list(map, k).len() && #[trigger] bucket_list(map, k)[t] == i
}

/// Whether the buckets file the first `n` of `enemies` as they should:
/// every entry names one of them, under the key of the bucket in which it
/// stands; every list is in ascending order; and every living one of them
/// is filed.
pub open spec fn buckets_file(map: Map<u64, Vec<usize>>, enemies: Seq<Enemy>, n: int) -> bool {
    &&& forall|k: u64, t: int|
        0 <= t < bucket_list(map, k).len() ==> {
            let i = #[trigger] bucket_list(map, k)[t];
            i < n && key_of(enemies[i as int].position) == k
        }
    &&& forall|k: u64, t: int, u: int|
        0 <= t < u < bucket_list(map, k).len() ==> #[trigger] bucket_list(map, k)[t]
            < #[trigger] bucket_list(map, k)[u]
    &&& forall|i: int|
        0 <= i < n && (#[trigger] enemies[i]).alive() ==> listed(
            map,
            key_of(enemies[i].position) as u64,
            i,
        )
}

/// Whether the buckets file all of `enemies` as they should.
pub open spec fn buckets_cover(map: Map<u64, Vec<usize>>, enemies: Seq<Enemy>) -> bool {
    buckets_file(map, enemies, enemies.len() as int)
}

/// The key of the bucket in which `p` falls.
pub fn position_key(p: Vec2) -> (k: u64)
    ensures
        k == key_of(p),
{
    proof {
        lemma_bucket_range(p.x);
        lemma_bucket_range(p.y);
    }
    bucket_key_of(bucket_index(p.x), bucket_index(p.y))
}

/// Files every living enemy under the bucket in which it stands.
pub fn build_buckets(enemies: &Vec<Enemy>) -> (buckets: HashMap<u64, Vec<usize>>)
    ensures
        buckets_cover(buckets@, enemies@),
{
    broadcast use vstd::std_specs::hash::group_hash_axioms;

    let mut buckets: HashMap<u64, Vec<usize>> = HashMap::new();
    let mut i: usize = 0;
    while i < enemies.len()
        invariant
            i <= enemies@.len(),
            buckets_file(buckets@, enemies@, i as int),
        decreases enemies@.len() - i,
    {
        if enemies[i].health > 0 {
            let key = position_key(enemies[i].position);
            let ghost before = buckets@;
            let mut list: Vec<usize> = match buckets.remove(&key) {
                Some(found) => found,
                None => Vec::new(),
            };
            assert(list@ == bucket_list(before, key));
            list.push(i);
            buckets.insert(key, list);
            proof {
                let after = buckets@;
                assert(bucket_list(after, key) == bucket_list(before, key).push(i));
                assert forall|k: u64| k != key implies #[trigger] bucket_list(after, k)
                    == bucket_list(before, k) by {}
                assert forall|k: u64, t: int| 0 <= t < bucket_list(after, k).len() implies {
                    let j = #[trigger] bucket_list(after, k)[t];
                    j < i + 1 && key_of(enemies@[j as int].position) == k
                } by {
                    if k == key {
                        if t < bucket_list(before, key).len() {
                            assert(bucket_list(after, k)[t] == bucket_list(before, k)[t]);
                        }
                    } else {
                        assert(bucket_list(after, k)[t] == bucket_list(before, k)[t]);
                    }
                }
                assert forall|k: u64, t: int, u: int|
                    0 <= t < u < bucket_list(after, k).len() implies #[trigger] bucket_list(
                    after,
                    k,
                )[t] < #[trigger] bucket_list(after, k)[u] by {
                    if k == key {
                        assert(bucket_list(after, k)[t] == bucket_list(before, k)[t]);
                        if u < bucket_list(before, key).len() {
                            assert(bucket_list(after, k)[u] == bucket_list(before, k)[u]);
                        }
                    } else {
                        assert(bucket_list(after, k)[t] == bucket_list(before, k)[t]);
                        assert(bucket_list(after, k)[u] == bucket_list(before, k)[u]);
                    }
                }
                assert forall|j: int| 0 <= j < i + 1 && (#[trigger] enemies@[j]).alive() implies listed(
                    after,
                    key_of(enemies@[j].position) as u64,
                    j,
                ) by {
                    let kj = key_of(enemies@[j].position) as u64;
                    if j == i {
                        let t = bucket_list(before, key).len() as int;
                        assert(bucket_list(after, kj)[t] == j);
                    } else {
                        assert(listed(before, kj, j));
                        let t = choose|t: int|
                            0 <= t < bucket_list(before, kj).len() && #[trigger] bucket_list(
                                before,
                                kj,
                            )[t] == j;
                        assert(bucket_list(after, kj)[t] == j);
                    }
                }
            }
        }
        i += 1;
    }
    buckets
}

/// The enemy a projectile at `p` hits, found through the buckets of the
/// block of three by three around it.
pub fn find_hit(buckets: &HashMap<u64, Vec<usize>>, enemies: &Vec<Enemy>, p: Vec2) -> (found:
    Option<usize>)
    requires
        buckets_cover(buckets@, enemies@),
    ensures
        match found {
            Some(i) => hit_index(enemies@, p) == Some(i as int),
            None => hit_index(enemies@, p).is_none(),
        },
{
    broadcast use vstd::std_specs::hash::group_hash_axioms;

    let bx = bucket_index(p.x);
    let by = bucket_index(p.y);
    proof {
        lemma_bucket_range(p.x);
        lemma_bucket_range(p.y);
        assert forall|j: int|
            0 <= j < enemies@.len() && #[trigger] can_hit(enemies@[j], p) implies scan_rank(
            enemies@[j].position,
            p,
        ) >= 0 by {
            lemma_hit_is_near(enemies@[j], p);
        }
    }
    let mut rank: i32 = 0;
    while rank < 9
        invariant
            0 <= rank <= 9,
            bx == bucket_of(p.x),
            by == bucket_of(p.y),
            -21475 <= bx <= 21474,
            -21475 <= by <= 21474,
            buckets_cover(buckets@, enemies@),
            forall|j: int|
                0 <= j < enemies@.len() && #[trigger] can_hit(enemies@[j], p) ==> scan_rank(
                    enemies@[j].position,
                    p,
                ) >= rank,
        decreases 9 - rank,
    {
        let dx: i32 = rank / 3 - 1;
        let dy: i32 = rank % 3 - 1;
        let key = bucket_key_of(bx + dx, by + dy);
        if let Some(list) = buckets.get(&key) {
            assert(list@ == bucket_list(buckets@, key));
            let mut t: usize = 0;
            while t < list.len()
                invariant
                    0 <= rank < 9,
                    dx == rank / 3 - 1,
                    dy == rank % 3 - 1,
                    bx == bucket_of(p.x),
                    by == bucket_of(p.y),
                    -21475 <= bx <= 21474,
                    -21475 <= by <= 21474,
                    key == bucket_key(bx + dx, by + dy),
                    list@ == bucket_list(buckets@, key),
                    t <= list@.len(),
                    buckets_cover(buckets@, enemies@),
                    forall|j: int|
                        0 <= j < enemies@.len() && #[trigger] can_hit(enemies@[j], p) ==> scan_rank(
                            enemies@[j].position,
                            p,
                        ) >= rank,
                    forall|u: int| 0 <= u < t ==> !can_hit(enemies@[#[trigger] list@[u] as int], p),
                decreases list@.len() - t,
            {
                let idx = list[t];
                assert(idx == bucket_list(buckets@, key)[t as int]);
                let enemy = &enemies[idx];
                if enemy.health > 0 && p.is_within(
                    enemy.position,
                    enemy.enemy_type.projectile_hit_radius() as i64,
                ) {
                    proof {
                        lemma_filed_rank(enemies@[idx as int].position, p, rank as int);
                        assert forall|j: int|
                            0 <= j < enemies@.len() && #[trigger] can_hit(
                                enemies@[j],
                                p,
                            ) implies scan_rank(enemies@[idx as int].position, p) < scan_rank(
                            enemies@[j].position,
                            p,
                        ) || (scan_rank(enemies@[idx as int].position, p) == scan_rank(
                            enemies@[j].position,
                            p,
                        ) && idx <= j) by {
                            if scan_rank(enemies@[j].position, p) == rank {
                                lemma_hit_is_near(enemies@[j], p);
                                lemma_ranked_key(enemies@[j].position, p, rank as int);
                                assert(listed(buckets@, key, j));
                                let u = choose|u: int|
                                    0 <= u < bucket_list(buckets@, key).len()
                                        && #[trigger] bucket_list(buckets@, key)[u] == j;
                                assert(list@[u] == j);
                                if u < t {
                                    assert(!can_hit(enemies@[list@[u] as int], p));
                                }
                                if u > t {
                                    assert(bucket_list(buckets@, key)[t as int] < bucket_list(
                                        buckets@,
                                        key,
                                    )[u]);
                                }
                            }
                        }
                        assert(is_hit(enemies@, p, idx as int));
                        let c = choose|c: int| is_hit(enemies@, p, c);
                        lemma_hit_unique(enemies@, p, idx as int, c);
                    }
                    return Some(idx);
                }
                t += 1;
            }
            proof {
                assert forall|j: int|
                    0 <= j < enemies@.len() && #[trigger] can_hit(enemies@[j], p) implies scan_rank(
                    enemies@[j].position,
                    p,
                ) >= rank + 1 by {
                    if scan_rank(enemies@[j].position, p) == rank {
                        lemma_hit_is_near(enemies@[j], p);
                        lemma_ranked_key(enemies@[j].position, p, rank as int);
                        assert(listed(buckets@, key, j));
                        let u = choose|u: int|
                            0 <= u < bucket_list(buckets@, key).len() && #[trigger] bucket_list(
                                buckets@,
                                key,
                            )[u] == j;
                        assert(!can_hit(enemies@[list@[u] as int], p));
                    }
                }
            }
        } else {
            proof {
                assert(bucket_list(buckets@, key).len() == 0);
                assert forall|j: int|
                    0 <= j < enemies@.len() && #[trigger] can_hit(enemies@[j], p) implies scan_rank(
                    enemies@[j].position,
                    p,
                ) >= rank + 1 by {
                    if scan_rank(enemies@[j].position, p) == rank {
                        lemma_hit_is_near(enemies@[j], p);
                        lemma_ranked_key(enemies@[j].position, p, rank as int);
                        assert(listed(buckets@, key, j));
                    }
                }
            }
        }
        rank += 1;
    }
    proof {
        assert forall|c: int| !is_hit(enemies@, p, c) by {
            if is_hit(enemies@, p, c) {
                lemma_hit_is_near(enemies@[c], p);
            }
        }
    }
    None
}

/// An enemy of the block around `p` whose bucket has the given rank is
/// filed under the key of the bucket of that rank.
proof fn lemma_ranked_key(e: Vec2, p: Vec2, rank: int)
    requires
        -1 <= bucket_of(e.x) - bucket_of(p.x) <= 1,
        -1 <= bucket_of(e.y) - bucket_of(p.y) <= 1,
        scan_rank(e, p) == rank,
    ensures
        0 <= rank < 9,
        key_of(e) == bucket_key(bucket_of(p.x) + rank / 3 - 1, bucket_of(p.y) + rank % 3 - 1),
        0 <= key_of(e) <= u64::MAX,
{
    lemma_bucket_range(e.x);
    lemma_bucket_range(e.y);
}

/// An enemy filed under the key of the bucket of the given rank around `p`
/// has that rank.
proof fn lemma_filed_rank(e: Vec2, p: Vec2, rank: int)
    requires
        0 <= rank < 9,
        key_of(e) == bucket_key(bucket_of(p.x) + rank / 3 - 1, bucket_of(p.y) + rank % 3 - 1),
    ensures
        scan_rank(e, p) == rank,
{
    lemma_bucket_range(e.x);
    lemma_bucket_range(e.y);
    lemma_bucket_range(p.x);
    lemma_bucket_range(p.y);
    lemma_key_injective(
        bucket_of(e.x),
        bucket_of(e.y),
        bucket_of(p.x) + rank / 3 - 1,
        bucket_of(p.y) + rank % 3 - 1,
    );
}

} // verus!
