use vstd::prelude::*;

verus! {

/// `g` is the side of the smallest square grid with room for `count` cells.
pub open spec fn is_grid_side(count: int, g: int) -> bool {
    &&& 0 <= g
    &&& count <= g * g
    &&& (g == 0 || (g - 1) * (g - 1) < count)
}

/// The side of the smallest square grid with room for `count` cells.
pub open spec fn grid_side_of(count: int) -> int {
    choose|g: int| is_grid_side(count, g)
}

/// At most one side fits a count.
pub proof fn lemma_grid_side_unique(count: int, g1: int, g2: int)
    requires
        is_grid_side(count, g1),
        is_grid_side(count, g2),
    ensures
        g1 == g2,
{
    if g1 < g2 {
        assert(g1 * g1 <= (g2 - 1) * (g2 - 1)) by (nonlinear_arith)
            requires
                0 <= g1 <= g2 - 1,
        ;
    } else if g2 < g1 {
        assert(g2 * g2 <= (g1 - 1) * (g1 - 1)) by (nonlinear_arith)
            requires
                0 <= g2 <= g1 - 1,
        ;
    }
}

/// A grid for more particles is never smaller.
pub proof fn lemma_grid_side_monotone(a: int, b: int)
    requires
        0 <= a <= b,
    ensures
        exists|g: int| is_grid_side(a, g),
        exists|g: int| is_grid_side(b, g),
        grid_side_of(a) <= grid_side_of(b),
{
    lemma_grid_side_exists(a);
    lemma_grid_side_exists(b);
    let ga = grid_side_of(a);
    let gb = grid_side_of(b);
    if gb < ga {
        assert(ga - 1 >= gb);
        assert((ga - 1) * (ga - 1) >= gb * gb) by (nonlinear_arith)
            requires
                ga - 1 >= gb >= 0,
        ;
    }
}

/// Every count has a grid side.
pub proof fn lemma_grid_side_exists(count: int)
    requires
        0 <= count,
    ensures
        exists|g: int| is_grid_side(count, g),
        is_grid_side(count, grid_side_of(count)),
    decreases count,
{
    if count == 0 {
        assert(is_grid_side(0, 0));
    } else {
        lemma_grid_side_exists(count - 1);
        let g = grid_side_of(count - 1);
        if count <= g * g {
            assert(g != 0) by (nonlinear_arith)
                requires
                    0 < count <= g * g,
            ;
            assert(is_grid_side(count, g));
        } else {
            assert(is_grid_side(count, g + 1)) by (nonlinear_arith)
                requires
                    0 <= g,
                    g * g < count,
                    count - 1 <= g * g,
            ;
        }
    }
}

/// The side never exceeds the count.
pub proof fn lemma_grid_side_le_count(count: int, g: int)
    requires
        0 <= count,
        is_grid_side(count, g),
    ensures
        g <= count,
{
    if g >= 2 {
        assert(g - 1 <= (g - 1) * (g - 1)) by (nonlinear_arith)
            requires
                g >= 2,
        ;
    }
}

/// The side of the smallest square grid that holds `count` particles: the least `g`
/// with `g * g >= count`.
pub fn grid_side(count: usize) -> (g: usize)
    ensures
        is_grid_side(count as int, g as int),
        g as int == grid_side_of(count as int),
{
    let mut g: usize = 0;
    while (g as u128) * (g as u128) < (count as u128)
        invariant
            g <= count,
            g == 0 || (g - 1) * (g - 1) < count,
            g * g <= u128::MAX,
        decreases count - g,
    {
        assert(g < count) by (nonlinear_arith)
            requires
                g * g < count,
        ;
        g += 1;
        assert(g * g <= u128::MAX) by (nonlinear_arith)
            requires
                g <= usize::MAX,
        ;
    }
    assert(is_grid_side(count as int, g as int));
    proof {
        lemma_grid_side_unique(count as int, g as int, grid_side_of(count as int));
    }
    g
}

/// Where a particle is placed when particles are laid out: its row and column in the
/// square grid, and its kind (the index of its color).
#[derive(Clone, Copy, Debug, PartialEq, Eq, Structural)]
pub struct SpawnSlot {
    pub row: usize,
    pub col: usize,
    pub color_id: usize,
}

/// The slot of the `k`-th particle among `count` particles of `n_colors` kinds: the grid
/// is filled row after row, and kinds are handed out in turn.
pub open spec fn slot_spec(count: int, n_colors: int, k: int) -> SpawnSlot {
    let g = grid_side_of(count);
    SpawnSlot { row: (k / g) as usize, col: (k % g) as usize, color_id: (k % n_colors) as usize }
}

/// Every laid-out particle gets a cell of the grid of its own, numbered row after row,
/// and a kind that indexes the colors.
pub proof fn lemma_slots_in_grid(count: int, n_colors: int, k: int)
    requires
        0 <= k < count,
        0 < n_colors,
        count <= usize::MAX,
    ensures
        ({
            let g = grid_side_of(count);
            let slot = slot_spec(count, n_colors, k);
            &&& slot.row < g
            &&& slot.col < g
            &&& slot.row * g + slot.col == k
            &&& slot.color_id < n_colors
        }),
{
    lemma_grid_side_exists(count);
    let g = grid_side_of(count);
    assert(0 < g);
    vstd::arithmetic::div_mod::lemma_fundamental_div_mod(k, g);
    vstd::arithmetic::div_mod::lemma_div_pos_is_pos(k, g);
    if k / g >= g {
        assert(k >= g * g) by (nonlinear_arith)
            requires
                k / g >= g,
                k == g * (k / g) + k % g,
                k % g >= 0,
                g > 0,
        ;
    }
    assert((k / g) * g == g * (k / g)) by (nonlinear_arith);
}

/// The `k`-th particle gets kind `k % n_colors`: kinds are handed out in turn, all of
/// them, so kinds repeat exactly every `n_colors` particles.
pub proof fn lemma_slot_kind(count: int, n_colors: int, k: int)
    requires
        0 <= k < count,
        0 < n_colors,
        count <= usize::MAX,
    ensures
        slot_spec(count, n_colors, k).color_id as int == k % n_colors,
        k + n_colors < count ==> slot_spec(count, n_colors, k + n_colors).color_id == slot_spec(
            count,
            n_colors,
            k,
        ).color_id,
{
    vstd::arithmetic::div_mod::lemma_mod_bound(k, n_colors);
    if k < n_colors {
        vstd::arithmetic::div_mod::lemma_small_mod(k as nat, n_colors as nat);
    }
    assert(k % n_colors <= k);
    vstd::arithmetic::div_mod::lemma_mod_add_multiples_vanish(k, n_colors);
    vstd::arithmetic::div_mod::lemma_mod_bound(k + n_colors, n_colors);
}

/// Every kind is used as soon as there are enough particles: the first `n_colors`
/// particles get kinds `0, 1, ..., n_colors - 1` in that order.
pub proof fn lemma_every_kind_spawned(count: int, n_colors: int, c: int)
    requires
        0 <= c < n_colors,
        c < count,
        count <= usize::MAX,
    ensures
        slot_spec(count, n_colors, c).color_id == c,
{
    vstd::arithmetic::div_mod::lemma_small_mod(c as nat, n_colors as nat);
}

/// Distinct particles are laid out in distinct cells.
pub proof fn lemma_slots_distinct(count: int, n_colors: int, k1: int, k2: int)
    requires
        0 <= k1 < count,
        0 <= k2 < count,
        k1 != k2,
        0 < n_colors,
        count <= usize::MAX,
    ensures
        slot_spec(count, n_colors, k1).row != slot_spec(count, n_colors, k2).row
            || slot_spec(count, n_colors, k1).col != slot_spec(count, n_colors, k2).col,
{
    lemma_slots_in_grid(count, n_colors, k1);
    lemma_slots_in_grid(count, n_colors, k2);
}

/// Lays `count` particles of `n_colors` kinds out on the smallest square grid that holds
/// them: row by row, column by column, the `k`-th particle getting kind `k % n_colors`.
pub fn spawn_slots(count: usize, n_colors: usize) -> (slots: Vec<SpawnSlot>)
    requires
        count == 0 || n_colors > 0,
        count <= usize::MAX / 2,
    ensures
        slots@.len() == count,
        forall|k: int| 0 <= k < count ==> #[trigger] slots@[k] == slot_spec(count as int, n_colors as int, k),
        forall|k: int|
            0 <= k < count ==> {
                &&& #[trigger] slots@[k].color_id as int == k % (n_colors as int)
                &&& slots@[k].row as int == k / grid_side_of(count as int)
                &&& slots@[k].col as int == k % grid_side_of(count as int)
            },
        forall|c: int| 0 <= c < n_colors && c < count ==> #[trigger] slots@[c].color_id == c,
{
    let g = grid_side(count);
    let ghost gs = g as int;
    let mut slots: Vec<SpawnSlot> = Vec::new();
    let mut i: usize = 0;
    while i < g
        invariant
            is_grid_side(count as int, gs),
            gs == g,
            gs == grid_side_of(count as int),
            count == 0 || n_colors > 0,
            count <= usize::MAX / 2,
            i <= g,
            slots@.len() == (if i * g <= count { i * g } else { count as int }),
            forall|k: int| 0 <= k < slots@.len() ==> #[trigger] slots@[k] == slot_spec(count as int, n_colors as int, k),
        decreases g - i,
    {
        proof {
            lemma_grid_side_le_count(count as int, g as int);
        }
        assert(i * g < 2 * count + 1) by (nonlinear_arith)
            requires
                i < g,
                (g - 1) * (g - 1) < count,
                g <= count + 1,
                0 <= i,
        ;
        let mut j: usize = 0;
        while j < g && i * g + j < count
            invariant
                is_grid_side(count as int, gs),
                gs == g,
                gs == grid_side_of(count as int),
                count == 0 || n_colors > 0,
                count <= usize::MAX / 2,
                i < g,
                j <= g,
                i * g < 2 * count + 1,
                j == 0 || i * g + j <= count,
                slots@.len() == (if i * g + j <= count { i * g + j } else { count as int }),
                forall|k: int| 0 <= k < slots@.len() ==> #[trigger] slots@[k] == slot_spec(count as int, n_colors as int, k),
            decreases g - j,
        {
            let index: usize = i * g + j;
            proof {
                vstd::arithmetic::div_mod::lemma_fundamental_div_mod_converse(
                    index as int,
                    g as int,
                    i as int,
                    j as int,
                );
            }
            slots.push(SpawnSlot { row: i, col: j, color_id: index % n_colors });
            j += 1;
        }
        assert((i + 1) * g == i * g + g) by (nonlinear_arith);
        assert(slots@.len() == (if (i + 1) * g <= count { (i + 1) * g } else { count as int })) by (nonlinear_arith)
            requires
                slots@.len() == (if i * g + j <= count { i * g + j } else { count as int }),
                j == g || i * g + j >= count,
                j <= g,
                j == 0 || i * g + j <= count,
                (i + 1) * g == i * g + g,
        ;
        i += 1;
    }
    assert(slots@.len() == count) by (nonlinear_arith)
        requires
            slots@.len() == (if i * g <= count { i * g } else { count as int }),
            i == g,
            count <= g * g,
    ;
    proof {
        assert forall|k: int| 0 <= k < count implies {
            &&& #[trigger] slots@[k].color_id as int == k % (n_colors as int)
            &&& slots@[k].row as int == k / grid_side_of(count as int)
            &&& slots@[k].col as int == k % grid_side_of(count as int)
        } by {
            lemma_slots_in_grid(count as int, n_colors as int, k);
            lemma_slot_kind(count as int, n_colors as int, k);
        }
        assert forall|c: int| 0 <= c < n_colors && c < count implies #[trigger] slots@[c].color_id
            == c by {
            lemma_every_kind_spawned(count as int, n_colors as int, c);
        }
    }
    slots
}

} // verus!
