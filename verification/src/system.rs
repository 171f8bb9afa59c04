use vstd::prelude::*;

use crate::matrix::{uniform_table, BehaviorMatrix};
use crate::palette::{palette_entry, palette_spec, selected_len, take_colors, CssColor, PALETTE_LEN};

verus! {

/// Number of particle kinds a fresh system starts with.
pub const DEFAULT_COLOR_COUNT: usize = 50;

/// The particle kinds of a simulation, each with its color, and how each kind reacts to
/// each other kind. The matrix always has one row and one column per kind.
pub struct ParticleSystem<T> {
    colors: Vec<CssColor>,
    behavior_matrix: BehaviorMatrix<T>,
}

/// A table with one row and column per palette entry fits in memory.
proof fn lemma_palette_table_fits(n: usize)
    requires
        n <= crate::palette::PALETTE_LEN,
    ensures
        n * n <= usize::MAX,
{
    assert(n * n <= 115 * 115) by (nonlinear_arith)
        requires
            n <= 115,
    ;
}

impl<T> ParticleSystem<T> {
    /// The matrix is square with one row per kind, and there are no more kinds than
    /// palette entries.
    pub closed spec fn wf(self) -> bool {
        &&& self.behavior_matrix.wf()
        &&& self.behavior_matrix.dim() == self.colors@.len()
        &&& self.colors@.len() <= crate::palette::PALETTE_LEN
    }

    /// The color of each particle kind, by kind.
    pub closed spec fn color_seq(self) -> Seq<CssColor> {
        self.colors@
    }

    /// The behavior table: entry `[i][j]` is how kind `i` reacts to kind `j`.
    pub closed spec fn behavior(self) -> Seq<Seq<T>> {
        self.behavior_matrix@
    }

    /// The behavior table of a well-formed system is square, one row per kind.
    pub proof fn lemma_behavior_square(self)
        requires
            self.wf(),
        ensures
            crate::matrix::is_square(self.behavior(), self.color_seq().len() as int),
    {
        self.behavior_matrix.lemma_square();
    }
}

impl<T: Copy> ParticleSystem<T> {
    /// A system with the first fifty palette colors and every behavior set to `neutral`.
    pub fn new(neutral: T) -> (s: Self)
        ensures
            s.wf(),
            s.color_seq() == palette_spec().take(DEFAULT_COLOR_COUNT as int),
            s.color_seq().len() == DEFAULT_COLOR_COUNT,
            forall|i: int| 0 <= i < DEFAULT_COLOR_COUNT ==> #[trigger] s.color_seq()[i] == palette_entry(i),
            s.behavior() == uniform_table(DEFAULT_COLOR_COUNT as nat, neutral),
    {
        let colors = take_colors(DEFAULT_COLOR_COUNT);
        let n = colors.len();
        let behavior_matrix = BehaviorMatrix::filled(n, neutral);
        ParticleSystem { colors, behavior_matrix }
    }

    /// The colors of the particle kinds.
    pub fn colors(&self) -> (c: &Vec<CssColor>)
        ensures
            c@ == self.color_seq(),
    {
        &self.colors
    }

    /// How many particle kinds there are.
    pub fn color_count(&self) -> (n: usize)
        ensures
            n == self.color_seq().len(),
    {
        self.colors.len()
    }

    /// How particles of kind `from_color` react to particles of kind `to_color`.
    pub fn get_behavior(&self, from_color: usize, to_color: usize) -> (v: T)
        requires
            self.wf(),
            from_color < self.color_seq().len(),
            to_color < self.color_seq().len(),
        ensures
            v == self.behavior()[from_color as int][to_color as int],
    {
        self.behavior_matrix.get(from_color, to_color)
    }

    /// Sets how particles of kind `from_color` react to particles of kind `to_color`;
    /// every other entry, and the colors, stay.
    pub fn set_behavior(&mut self, from_color: usize, to_color: usize, v: T)
        requires
            old(self).wf(),
            from_color < old(self).color_seq().len(),
            to_color < old(self).color_seq().len(),
        ensures
            final(self).wf(),
            final(self).color_seq() == old(self).color_seq(),
            final(self).behavior() == old(self).behavior().update(
                from_color as int,
                old(self).behavior()[from_color as int].update(to_color as int, v),
            ),
    {
        self.behavior_matrix.set(from_color, to_color, v);
    }

    /// Resets every behavior to `neutral`, with one row and column per current kind.
    pub fn regenerate_matrix(&mut self, neutral: T)
        requires
            old(self).wf(),
        ensures
            final(self).wf(),
            final(self).color_seq() == old(self).color_seq(),
            final(self).behavior() == uniform_table(old(self).color_seq().len(), neutral),
    {
        let n = self.colors.len();
        proof {
            lemma_palette_table_fits(n);
        }
        self.behavior_matrix = BehaviorMatrix::filled(n, neutral);
    }

    /// Takes the first `count` palette colors (all of them where `count` exceeds the
    /// palette) as the particle kinds, and resets every behavior to `neutral`.
    pub fn set_color_count(&mut self, count: usize, neutral: T)
        ensures
            final(self).wf(),
            final(self).color_seq() == palette_spec().take(selected_len(count as int)),
            count <= PALETTE_LEN ==> final(self).color_seq().len() == count,
            count >= PALETTE_LEN ==> final(self).color_seq().len() == PALETTE_LEN,
            forall|i: int| 0 <= i < final(self).color_seq().len() ==> #[trigger] final(self).color_seq()[i] == palette_entry(i),
            final(self).behavior() == uniform_table(selected_len(count as int) as nat, neutral),
    {
        self.colors = take_colors(count);
        let n = self.colors.len();
        proof {
            lemma_palette_table_fits(n);
        }
        self.behavior_matrix = BehaviorMatrix::filled(n, neutral);
    }
}

} // verus!
