//! The single-line editor behind message editing: a sequence of grapheme
//! clusters and a cursor, driven by discrete key events.
use vstd::prelude::*;
use crate::text::{chars_of, string_of, trim, trim_chars};
use unicode_segmentation::UnicodeSegmentation;
use unicode_width::UnicodeWidthStr;

verus! {

/// Name for the grapheme clusters (extended) that `unicode-segmentation`
/// finds in a text.
pub uninterp spec fn graphemes_of(s: Seq<char>) -> Seq<Seq<char>>;

/// The views of a sequence of strings.
pub open spec fn string_views(v: Seq<String>) -> Seq<Seq<char>> {
    v.map_values(|g: String| g@)
}

/// Relies on `UnicodeSegmentation::graphemes` (extended clusters): the
/// clusters come in order and together are the whole text.
#[verifier::external_body]
fn split_graphemes(s: &str) -> (r: Vec<String>)
    ensures
        string_views(r@) == graphemes_of(s@),
        string_views(r@).flatten_alt() == s@,
{
    UnicodeSegmentation::graphemes(s, true).map(|g| g.to_string()).collect()
}

/// Name for the terminal width that `unicode-width` gives a text.
pub uninterp spec fn display_width(s: Seq<char>) -> usize;

/// Relies on `UnicodeWidthStr::width`: the columns the text takes on a
/// terminal, from its characters alone.
#[verifier::external_body]
fn width_of(s: &str) -> (r: usize)
    ensures
        r == display_width(s@),
{
    UnicodeWidthStr::width(s)
}

/// Largest column a cursor is placed at.
pub const MAX_COLUMN: u16 = 65535;

/// Total width of the clusters.
pub open spec fn widths(g: Seq<Seq<char>>) -> nat
    decreases g.len(),
{
    if g.len() == 0 {
        0
    } else {
        widths(g.drop_last()) + display_width(g.last()) as nat
    }
}

/// The column of a cursor after `header` columns and the clusters `g`
/// before it, capped at `MAX_COLUMN`.
pub open spec fn column_for(header: nat, g: Seq<Seq<char>>) -> u16 {
    if header + widths(g) >= MAX_COLUMN {
        MAX_COLUMN
    } else {
        (header + widths(g)) as u16
    }
}

/// A key event of the editor.
#[derive(Clone, Copy, Debug, PartialEq, Eq, Structural)]
pub enum Key {
    /// Insert a character at the cursor.
    Char(char),
    /// Delete the cluster before the cursor.
    Backspace,
    Left,
    Right,
    Home,
    End,
    /// Finish editing.
    Enter,
    /// Abandon editing.
    Interrupt,
    /// Any key the editor ignores.
    Other,
}

/// What a key did to the editing as a whole.
pub enum EditOutcome {
    /// Editing goes on.
    Continue,
    /// Editing ended; the text, trimmed.
    Finished(String),
    /// Editing was abandoned.
    Cancelled,
}

/// The line being edited.
pub struct LineEditor {
    pub graphemes: Vec<String>,
    pub cursor: usize,
}

/// The clusters after `key`, from clusters `g` and cursor `c`.
pub open spec fn clusters_after(g: Seq<Seq<char>>, c: int, key: Key) -> Seq<Seq<char>> {
    match key {
        Key::Char(ch) => g.insert(c, seq![ch]),
        Key::Backspace => if c > 0 {
            g.remove(c - 1)
        } else {
            g
        },
        _ => g,
    }
}

/// The cursor after `key`, from clusters `g` and cursor `c`.
pub open spec fn cursor_after(g: Seq<Seq<char>>, c: int, key: Key) -> int {
    match key {
        Key::Char(_) => c + 1,
        Key::Backspace => if c > 0 {
            c - 1
        } else {
            c
        },
        Key::Left => if c > 0 {
            c - 1
        } else {
            c
        },
        Key::Right => if c < g.len() {
            c + 1
        } else {
            c
        },
        Key::Home => 0,
        Key::End => g.len() as int,
        _ => c,
    }
}

impl LineEditor {
    /// The cursor lies within the line.
    pub open spec fn wf(&self) -> bool {
        self.cursor <= self.graphemes.len()
    }

    /// The clusters, as character sequences.
    pub open spec fn clusters(&self) -> Seq<Seq<char>> {
        string_views(self.graphemes@)
    }

    /// The text being edited.
    pub open spec fn text(&self) -> Seq<char> {
        self.clusters().flatten_alt()
    }

    /// The editor holds `s` split into clusters, with the cursor at the end.
    pub open spec fn seeded_with(&self, s: Seq<char>) -> bool {
        &&& self.clusters() == graphemes_of(s)
        &&& self.text() == s
        &&& self.cursor == self.graphemes.len()
    }

    /// An editor holding `initial`, cursor at the end.
    pub fn new(initial: &str) -> (r: LineEditor)
        ensures
            r.wf(),
            r.seeded_with(initial@),
    {
        let graphemes = split_graphemes(initial);
        let cursor = graphemes.len();
        LineEditor { graphemes, cursor }
    }

    /// The text being edited.
    pub fn current_text(&self) -> (r: String)
        ensures
            r@ == self.text(),
    {
        let mut out: Vec<char> = Vec::new();
        let mut i: usize = 0;
        assert(self.clusters().take(0) =~= Seq::<Seq<char>>::empty());
        while i < self.graphemes.len()
            invariant
                i <= self.graphemes.len(),
                out@ == self.clusters().take(i as int).flatten_alt(),
            decreases self.graphemes.len() - i,
        {
            let g = chars_of(self.graphemes[i].as_str());
            let mut k: usize = 0;
            let ghost start = out@;
            while k < g.len()
                invariant
                    k <= g.len(),
                    out@ == start + g@.take(k as int),
                decreases g.len() - k,
            {
                out.push(g[k]);
                k += 1;
                assert(out@ =~= start + g@.take(k as int));
            }
            assert(g@.take(g.len() as int) =~= g@);
            assert(self.clusters().take(i + 1).drop_last() =~= self.clusters().take(i as int));
            assert(self.clusters().take(i + 1).last() == self.graphemes@[i as int]@);
            i += 1;
        }
        assert(self.clusters().take(self.graphemes.len() as int) =~= self.clusters());
        string_of(&out)
    }

    /// The terminal column of the cursor when the line is drawn after a
    /// header `header` columns wide.
    pub fn cursor_column(&self, header: u16) -> (r: u16)
        requires
            self.wf(),
        ensures
            r == column_for(header as nat, self.clusters().take(self.cursor as int)),
    {
        let mut acc: u16 = header;
        let mut i: usize = 0;
        assert(self.clusters().take(0) =~= Seq::<Seq<char>>::empty());
        while i < self.cursor
            invariant
                self.wf(),
                i <= self.cursor,
                acc == column_for(header as nat, self.clusters().take(i as int)),
            decreases self.cursor - i,
        {
            let w = width_of(self.graphemes[i].as_str());
            assert(self.clusters().take(i + 1).drop_last() =~= self.clusters().take(i as int));
            assert(self.clusters().take(i + 1).last() == self.graphemes@[i as int]@);
            if w >= (MAX_COLUMN - acc) as usize {
                acc = MAX_COLUMN;
            } else {
                acc = acc + w as u16;
            }
            i += 1;
        }
        acc
    }

    /// The number of clusters before the cursor.
    pub fn cursor_position(&self) -> (r: usize)
        ensures
            r == self.cursor,
    {
        self.cursor
    }

    /// Applies one key: edits or moves the cursor, or ends the editing.
    pub fn apply(&mut self, key: Key) -> (r: EditOutcome)
        requires
            old(self).wf(),
        ensures
            final(self).wf(),
            final(self).clusters() == clusters_after(old(self).clusters(), old(self).cursor as int, key),
            final(self).cursor == cursor_after(old(self).clusters(), old(self).cursor as int, key),
            key == Key::Enter ==> r is Finished && r->Finished_0@ == trim(old(self).text()),
            key == Key::Interrupt ==> r is Cancelled,
            key != Key::Enter && key != Key::Interrupt ==> r is Continue,
    {
        match key {
            Key::Enter => {
                let text = self.current_text();
                let chars = chars_of(text.as_str());
                EditOutcome::Finished(string_of(&trim_chars(&chars)))
            },
            Key::Interrupt => EditOutcome::Cancelled,
            Key::Char(c) => {
                let single = vec![c];
                assert(single@ =~= seq![c]);
                let g = string_of(&single);
                let ghost before = self.graphemes@;
                let ghost at = self.cursor as int;
                self.graphemes.insert(self.cursor, g);
                assert(self.graphemes@ == before.insert(at, g));
                assert(string_views(self.graphemes@) =~= string_views(before).insert(at, seq![c]));
                assert(self.cursor < self.graphemes.len());
                self.cursor = self.cursor + 1;
                EditOutcome::Continue
            },
            Key::Backspace => {
                if self.cursor > 0 {
                    let ghost before = self.graphemes@;
                    self.cursor = self.cursor - 1;
                    self.graphemes.remove(self.cursor);
                    assert(string_views(self.graphemes@) =~= string_views(before).remove(
                        self.cursor as int,
                    ));
                }
                EditOutcome::Continue
            },
            Key::Left => {
                if self.cursor > 0 {
                    self.cursor = self.cursor - 1;
                }
                EditOutcome::Continue
            },
            Key::Right => {
                if self.cursor < self.graphemes.len() {
                    self.cursor = self.cursor + 1;
                }
                EditOutcome::Continue
            },
            Key::Home => {
                self.cursor = 0;
                EditOutcome::Continue
            },
            Key::End => {
                self.cursor = self.graphemes.len();
                EditOutcome::Continue
            },
            Key::Other => EditOutcome::Continue,
        }
    }
}

} // verus!
