//! Sprites: blocks of text that are painted as rectangular grids of glyphs.

use crate::generics::Vec2;
use crate::text::{graphemes_of, grapheme_clusters, lines_of, split_lines, views_of, widest};
use vstd::prelude::*;

verus! {

/// The extent of a text when it is painted as a grid of glyphs: as many
/// columns as its widest line has grapheme clusters, as many rows as it has
/// lines. Each count is kept in sixteen bits, so it wraps at 65536.
pub open spec fn measured(text: Seq<char>) -> Vec2 {
    let lines = split_lines(text);
    Vec2 { x: (widest(lines) % 0x1_0000) as u16, y: (lines.len() % 0x1_0000) as u16 }
}

/// Measures a text; see `measured`.
pub fn measure(text: &str) -> (size: Vec2)
    ensures
        size == measured(text@),
{
    let lines = lines_of(text);
    let mut width: usize = 0;
    let mut i: usize = 0;
    while i < lines.len()
        invariant
            i <= lines.len(),
            views_of(lines@) == split_lines(text@),
            width == widest(split_lines(text@).take(i as int)),
        decreases lines.len() - i,
    {
        let clusters = graphemes_of(lines[i]);
        proof {
            let all = split_lines(text@);
            assert(views_of(lines@)[i as int] == lines@[i as int]@);
            assert(all.take(i + 1).drop_last() == all.take(i as int));
            assert(all.take(i + 1).last() == all[i as int]);
            assert(views_of(clusters@).len() == clusters.len());
        }
        if clusters.len() > width {
            width = clusters.len();
        }
        i += 1;
    }
    proof {
        let all = split_lines(text@);
        assert(all.take(lines.len() as int) == all);
        assert(views_of(lines@).len() == lines.len());
    }
    Vec2::new((width % 0x1_0000) as u16, (lines.len() % 0x1_0000) as u16)
}

/// A sprite: a block of text together with its extent, which is measured once,
/// when the sprite is made, and kept for as long as the sprite lives.
pub struct Graphic {
    sprite: &'static str,
    size: Vec2,
}

impl View for Graphic {
    type V = Seq<char>;

    /// The sprite's text.
    closed spec fn view(&self) -> Seq<char> {
        self.sprite@
    }
}

impl Graphic {
    #[verifier::type_invariant]
    spec fn size_is_measured(self) -> bool {
        self.size == measured(self.sprite@)
    }

    /// A sprite of the given text.
    pub fn new(s: &'static str) -> (graphic: Graphic)
        ensures
            graphic@ == s@,
    {
        Graphic { sprite: s, size: measure(s) }
    }

    /// The sprite's text.
    pub fn sprite(&self) -> (s: &'static str)
        ensures
            s@ == self@,
    {
        self.sprite
    }

    /// The sprite's extent. Nothing is scanned here: the answer was computed
    /// when the sprite was made, so every call gives the same one.
    pub fn size(&self) -> (size: Vec2)
        ensures
            size == measured(self@),
    {
        proof {
            use_type_invariant(self);
        }
        self.size
    }
}

/// The sprites of the scene.
pub struct Graphics {
    pub log: Graphic,
    pub tree: Graphic,
}

impl Graphics {
    /// The scene's sprites, made from the art for one log and for the tree.
    pub fn new(log: &'static str, tree: &'static str) -> (graphics: Graphics)
        ensures
            graphics.log@ == log@,
            graphics.tree@ == tree@,
    {
        Graphics { log: Graphic::new(log), tree: Graphic::new(tree) }
    }
}

} // verus!
