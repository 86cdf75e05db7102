//! Biome definitions and the nearest-match classifier.

use vstd::prelude::*;

verus! {

/// One whole in the fixed-point scale shared by all scalars: a stored value
/// `v` stands for the real number `v / UNIT`.
pub const UNIT: i32 = 1_000_000;

/// The biome index of a cell that no biome admits.
pub const UNMATCHED: i32 = -1;

/// A classification region: a cell qualifies when each of its three scalars
/// reaches the corresponding minimum.
#[derive(Debug)]
pub struct Biome {
    pub name: String,
    pub movement_modifier: i32,
    pub min_height: i32,
    pub min_moisture: i32,
    pub min_heat: i32,
}

/// The ordered biome catalog. Order only breaks ties between equally near
/// biomes.
#[derive(Debug)]
pub struct Biomes {
    pub biomes: Vec<Biome>,
}

/// Absolute difference of two integers.
pub open spec fn gap(a: int, b: int) -> int {
    if a >= b {
        a - b
    } else {
        b - a
    }
}

impl Clone for Biome {
    fn clone(&self) -> (copy: Self)
        ensures
            copy == *self,
    {
        Biome {
            name: self.name.clone(),
            movement_modifier: self.movement_modifier,
            min_height: self.min_height,
            min_moisture: self.min_moisture,
            min_heat: self.min_heat,
        }
    }
}

impl Biome {
    /// Whether a cell with these scalars lies in the biome's region.
    pub open spec fn admits(&self, height: int, moisture: int, heat: int) -> bool {
        height >= self.min_height && moisture >= self.min_moisture && heat >= self.min_heat
    }

    /// How far the cell's scalars lie from the biome's minimums, summed over
    /// the three axes.
    pub open spec fn distance(&self, height: int, moisture: int, heat: int) -> int {
        gap(height, self.min_height as int) + gap(moisture, self.min_moisture as int) + gap(
            heat,
            self.min_heat as int,
        )
    }

    /// Whether the biome admits a cell with these scalars.
    pub fn matches(&self, height: i32, moisture: i32, heat: i32) -> (admitted: bool)
        ensures
            admitted == self.admits(height as int, moisture as int, heat as int),
    {
        height >= self.min_height && moisture >= self.min_moisture && heat >= self.min_heat
    }

    /// The distance of a cell with these scalars from the biome's minimums.
    pub fn get_difference(&self, height: i32, moisture: i32, heat: i32) -> (difference: i64)
        ensures
            difference == self.distance(height as int, moisture as int, heat as int),
            0 <= difference <= 3 * (u32::MAX as int),
    {
        axis_gap(height, self.min_height) + axis_gap(moisture, self.min_moisture) + axis_gap(
            heat,
            self.min_heat,
        )
    }
}

/// The absolute difference between a scalar and a minimum.
fn axis_gap(value: i32, minimum: i32) -> (difference: i64)
    ensures
        difference == gap(value as int, minimum as int),
        0 <= difference <= u32::MAX,
{
    if value >= minimum {
        value as i64 - minimum as i64
    } else {
        minimum as i64 - value as i64
    }
}

/// Whether biome `i` is the classifier's choice for the cell: it admits the
/// cell, no admissible biome is nearer, and every admissible biome declared
/// before it is strictly farther.
pub open spec fn is_best_match(
    biomes: Seq<Biome>,
    height: int,
    moisture: int,
    heat: int,
    i: int,
) -> bool {
    &&& 0 <= i < biomes.len()
    &&& biomes[i].admits(height, moisture, heat)
    &&& forall|j: int|
        0 <= j < biomes.len() && (#[trigger] biomes[j]).admits(height, moisture, heat)
            ==> biomes[i].distance(height, moisture, heat) <= biomes[j].distance(
            height,
            moisture,
            heat,
        )
    &&& forall|j: int|
        0 <= j < i && (#[trigger] biomes[j]).admits(height, moisture, heat)
            ==> biomes[i].distance(height, moisture, heat) < biomes[j].distance(
            height,
            moisture,
            heat,
        )
}

/// Whether some biome of the catalog admits the cell.
pub open spec fn has_admissible(biomes: Seq<Biome>, height: int, moisture: int, heat: int) -> bool {
    exists|j: int| 0 <= j < biomes.len() && (#[trigger] biomes[j]).admits(height, moisture, heat)
}

/// The biome index the classifier assigns: the best match, or [`UNMATCHED`]
/// when no biome admits the cell.
pub open spec fn best_match(biomes: Seq<Biome>, height: int, moisture: int, heat: int) -> int {
    if has_admissible(biomes, height, moisture, heat) {
        choose|i: int| is_best_match(biomes, height, moisture, heat, i)
    } else {
        UNMATCHED as int
    }
}

/// At most one biome is the best match.
pub proof fn best_match_is_unique(
    biomes: Seq<Biome>,
    height: int,
    moisture: int,
    heat: int,
    i: int,
    j: int,
)
    requires
        is_best_match(biomes, height, moisture, heat, i),
        is_best_match(biomes, height, moisture, heat, j),
    ensures
        i == j,
{
    if i < j {
        assert(biomes[i].admits(height, moisture, heat));
    } else if j < i {
        assert(biomes[j].admits(height, moisture, heat));
    }
}

/// A biome shown to be the best match is the one `best_match` names.
pub proof fn best_match_determined(
    biomes: Seq<Biome>,
    height: int,
    moisture: int,
    heat: int,
    i: int,
)
    requires
        is_best_match(biomes, height, moisture, heat, i),
    ensures
        best_match(biomes, height, moisture, heat) == i,
{
    assert(biomes[i].admits(height, moisture, heat));
    let chosen = choose|k: int| is_best_match(biomes, height, moisture, heat, k);
    best_match_is_unique(biomes, height, moisture, heat, i, chosen);
}

/// Picks the admissible biome nearest to the cell; among equally near biomes
/// the one declared first. Returns [`UNMATCHED`] when no biome admits the cell.
pub fn classify(biomes: &Vec<Biome>, height: i32, moisture: i32, heat: i32) -> (best: i32)
    requires
        biomes.len() <= i32::MAX,
    ensures
        best == best_match(biomes@, height as int, moisture as int, heat as int),
        best == UNMATCHED <==> !has_admissible(
            biomes@,
            height as int,
            moisture as int,
            heat as int,
        ),
        best != UNMATCHED ==> is_best_match(
            biomes@,
            height as int,
            moisture as int,
            heat as int,
            best as int,
        ),
{
    let mut best_biome_index: i32 = UNMATCHED;
    let mut best_difference: i64 = i64::MAX;
    let mut biome_index: usize = 0;
    while biome_index < biomes.len()
        invariant
            biome_index <= biomes.len() <= i32::MAX,
            best_biome_index == UNMATCHED ==> best_difference == i64::MAX,
            best_biome_index == UNMATCHED ==> forall|j: int|
                0 <= j < biome_index ==> !(#[trigger] biomes@[j]).admits(
                    height as int,
                    moisture as int,
                    heat as int,
                ),
            best_biome_index != UNMATCHED ==> {
                &&& 0 <= best_biome_index < biome_index
                &&& biomes@[best_biome_index as int].admits(
                    height as int,
                    moisture as int,
                    heat as int,
                )
                &&& best_difference == biomes@[best_biome_index as int].distance(
                    height as int,
                    moisture as int,
                    heat as int,
                )
                &&& forall|j: int|
                    0 <= j < biome_index && (#[trigger] biomes@[j]).admits(
                        height as int,
                        moisture as int,
                        heat as int,
                    ) ==> best_difference <= biomes@[j].distance(
                        height as int,
                        moisture as int,
                        heat as int,
                    )
                &&& forall|j: int|
                    0 <= j < best_biome_index && (#[trigger] biomes@[j]).admits(
                        height as int,
                        moisture as int,
                        heat as int,
                    ) ==> best_difference < biomes@[j].distance(
                        height as int,
                        moisture as int,
                        heat as int,
                    )
            },
        decreases biomes.len() - biome_index,
    {
        let biome = &biomes[biome_index];
        if biome.matches(height, moisture, heat) {
            let difference = biome.get_difference(height, moisture, heat);
            if difference < best_difference {
                best_biome_index = biome_index as i32;
                best_difference = difference;
            }
        }
        biome_index += 1;
    }
    proof {
        if best_biome_index != UNMATCHED {
            assert(is_best_match(
                biomes@,
                height as int,
                moisture as int,
                heat as int,
                best_biome_index as int,
            ));
            best_match_determined(
                biomes@,
                height as int,
                moisture as int,
                heat as int,
                best_biome_index as int,
            );
        }
    }
    best_biome_index
}

/// Of two admissible biomes at the same distance from the cell, the one
/// declared later is never chosen.
pub proof fn tie_goes_to_earlier_biome(
    biomes: Seq<Biome>,
    height: int,
    moisture: int,
    heat: int,
    earlier: int,
    later: int,
)
    requires
        0 <= earlier < later < biomes.len(),
        biomes[earlier].admits(height, moisture, heat),
        biomes[later].admits(height, moisture, heat),
        biomes[earlier].distance(height, moisture, heat) == biomes[later].distance(
            height,
            moisture,
            heat,
        ),
    ensures
        best_match(biomes, height, moisture, heat) != later,
        !is_best_match(biomes, height, moisture, heat, later),
{
    best_match_exists(biomes, height, moisture, heat, biomes.len() as int);
    let chosen = choose|k: int| is_best_match(biomes, height, moisture, heat, k);
    assert(has_admissible(biomes, height, moisture, heat));
}

/// A cell that no biome admits is unmatched, and an unmatched result is never
/// a catalog index; a cell that some biome admits gets a best match.
pub proof fn unmatched_iff_none_admissible(
    biomes: Seq<Biome>,
    height: int,
    moisture: int,
    heat: int,
)
    ensures
        !has_admissible(biomes, height, moisture, heat) <==> best_match(
            biomes,
            height,
            moisture,
            heat,
        ) == UNMATCHED,
        has_admissible(biomes, height, moisture, heat) ==> is_best_match(
            biomes,
            height,
            moisture,
            heat,
            best_match(biomes, height, moisture, heat),
        ),
{
    if has_admissible(biomes, height, moisture, heat) {
        best_match_exists(biomes, height, moisture, heat, biomes.len() as int);
    }
}

/// The best match among the first `n` biomes, with `UNMATCHED` when none of
/// them admits the cell.
spec fn best_in_prefix(biomes: Seq<Biome>, height: int, moisture: int, heat: int, n: int) -> int
    decreases n,
{
    if n <= 0 {
        UNMATCHED as int
    } else {
        let before = best_in_prefix(biomes, height, moisture, heat, n - 1);
        if biomes[n - 1].admits(height, moisture, heat) && (before == UNMATCHED
            || biomes[n - 1].distance(height, moisture, heat) < biomes[before].distance(
            height,
            moisture,
            heat,
        )) {
            n - 1
        } else {
            before
        }
    }
}

proof fn best_in_prefix_is_best(biomes: Seq<Biome>, height: int, moisture: int, heat: int, n: int)
    requires
        0 <= n <= biomes.len(),
    ensures
        ({
            let b = best_in_prefix(biomes, height, moisture, heat, n);
            if b == UNMATCHED {
                forall|j: int| 0 <= j < n ==> !(#[trigger] biomes[j]).admits(height, moisture, heat)
            } else {
                is_best_match(biomes.take(n), height, moisture, heat, b)
            }
        }),
    decreases n,
{
    if n > 0 {
        best_in_prefix_is_best(biomes, height, moisture, heat, n - 1);
        let before = best_in_prefix(biomes, height, moisture, heat, n - 1);
        let b = best_in_prefix(biomes, height, moisture, heat, n);
        assert(forall|j: int| 0 <= j < n ==> biomes.take(n)[j] == biomes[j]);
        assert(forall|j: int| 0 <= j < n - 1 ==> biomes.take(n - 1)[j] == biomes[j]);
        if before != UNMATCHED {
            assert(0 <= before < n - 1);
            assert(biomes.take(n - 1)[before] == biomes[before]);
        }
        if b != UNMATCHED {
            assert(biomes.take(n)[b] == biomes[b]);
            assert forall|j: int|
                0 <= j < n && (#[trigger] biomes.take(n)[j]).admits(
                    height,
                    moisture,
                    heat,
                ) implies biomes.take(n)[b].distance(height, moisture, heat) <= biomes.take(
                n,
            )[j].distance(height, moisture, heat) by {
                if j < n - 1 {
                    assert(biomes.take(n - 1)[j].admits(height, moisture, heat));
                }
            }
            assert forall|j: int|
                0 <= j < b && (#[trigger] biomes.take(n)[j]).admits(
                    height,
                    moisture,
                    heat,
                ) implies biomes.take(n)[b].distance(height, moisture, heat) < biomes.take(
                n,
            )[j].distance(height, moisture, heat) by {
                assert(biomes.take(n - 1)[j].admits(height, moisture, heat));
            }
        } else {
            assert forall|j: int| 0 <= j < n implies !(#[trigger] biomes[j]).admits(
                height,
                moisture,
                heat,
            ) by {
                if j < n - 1 {
                } else {
                }
            }
        }
    }
}

proof fn best_match_exists(biomes: Seq<Biome>, height: int, moisture: int, heat: int, n: int)
    requires
        n == biomes.len(),
        has_admissible(biomes, height, moisture, heat),
    ensures
        exists|i: int| is_best_match(biomes, height, moisture, heat, i),
        is_best_match(
            biomes,
            height,
            moisture,
            heat,
            choose|i: int| is_best_match(biomes, height, moisture, heat, i),
        ),
{
    best_in_prefix_is_best(biomes, height, moisture, heat, n);
    assert(biomes.take(n) =~= biomes);
    let b = best_in_prefix(biomes, height, moisture, heat, n);
    assert(is_best_match(biomes, height, moisture, heat, b));
}

} // verus!
