//! Chunks — the segments of the eventual output — and the arena owning them.

use crate::span::Span;
use crate::{CowStr, TextSize};
use std::collections::VecDeque;
use vstd::prelude::*;

verus! {

broadcast use vstd::std_specs::vecdeque::group_vec_dequeue_axioms;

/// A stable index of a chunk within its arena.
#[derive(Clone, Copy, PartialEq, Eq, Structural, Debug, Hash)]
pub struct ChunkIdx(pub u32);

/// Options passed to [`Chunk::edit`].
#[derive(Clone, Copy, Debug)]
pub struct EditOptions {
    /// `true` discards the `intro` and `outro` of the [`Chunk`] along with
    /// its content; `false` replaces the content only.
    pub overwrite: bool,
    /// Recorded on the chunk for name-tracking collaborators; has no other
    /// effect at this layer.
    pub store_name: bool,
}

impl Default for EditOptions {
    fn default() -> (r: Self)
        ensures
            r.overwrite == true,
            r.store_name == false,
    {
        Self { overwrite: true, store_name: false }
    }
}

/// One segment of the eventual output: a span into the source (or a
/// replacement string once edited), ordered fragment lists emitted before
/// (`intro`) and after (`outro`) the segment's own content, and a forward
/// link to the next chunk in emission order.
#[derive(Debug)]
pub struct Chunk<'text> {
    pub intro: VecDeque<CowStr<'text>>,
    pub outro: VecDeque<CowStr<'text>>,
    pub span: Span,
    pub edited_content: Option<CowStr<'text>>,
    /// Wired by the collaborator that owns the arena; [`Chunk::split`] hands
    /// the old link to the new right-hand chunk and leaves this one as it was.
    pub next: Option<ChunkIdx>,
    pub store_name: bool,
}

impl<'text> Chunk<'text> {
    pub fn new(span: Span) -> (r: Self)
        requires
            span.wf(),
        ensures
            r.span == span,
            r.intro@ =~= Seq::<CowStr<'text>>::empty(),
            r.outro@ =~= Seq::<CowStr<'text>>::empty(),
            r.edited_content is None,
            r.next is None,
            r.store_name == false,
    {
        Self {
            intro: VecDeque::new(),
            outro: VecDeque::new(),
            span,
            edited_content: None,
            next: None,
            store_name: false,
        }
    }

    pub fn start(&self) -> (r: TextSize)
        ensures
            r == self.span.0,
    {
        self.span.start()
    }

    pub fn end(&self) -> (r: TextSize)
        ensures
            r == self.span.1,
    {
        self.span.end()
    }

    /// True only for offsets strictly interior to the span: boundary offsets
    /// are not contained, since an edit exactly at a boundary belongs to the
    /// adjacent chunk.
    pub fn contains(&self, text_index: TextSize) -> (r: bool)
        ensures
            r == (self.span.0 < text_index && text_index < self.span.1),
    {
        self.start() < text_index && text_index < self.end()
    }

    pub fn append_outro(&mut self, content: CowStr<'text>)
        ensures
            final(self).outro@ == old(self).outro@.push(content),
            final(self).intro == old(self).intro,
            final(self).span == old(self).span,
            final(self).edited_content == old(self).edited_content,
            final(self).next == old(self).next,
            final(self).store_name == old(self).store_name,
    {
        self.outro.push_back(content)
    }

    pub fn append_intro(&mut self, content: CowStr<'text>)
        ensures
            final(self).intro@ == old(self).intro@.push(content),
            final(self).outro == old(self).outro,
            final(self).span == old(self).span,
            final(self).edited_content == old(self).edited_content,
            final(self).next == old(self).next,
            final(self).store_name == old(self).store_name,
    {
        self.intro.push_back(content)
    }

    pub fn prepend_outro(&mut self, content: CowStr<'text>)
        ensures
            final(self).outro@ == seq![content] + old(self).outro@,
            final(self).intro == old(self).intro,
            final(self).span == old(self).span,
            final(self).edited_content == old(self).edited_content,
            final(self).next == old(self).next,
            final(self).store_name == old(self).store_name,
    {
        self.outro.push_front(content)
    }

    pub fn prepend_intro(&mut self, content: CowStr<'text>)
        ensures
            final(self).intro@ == seq![content] + old(self).intro@,
            final(self).outro == old(self).outro,
            final(self).span == old(self).span,
            final(self).edited_content == old(self).edited_content,
            final(self).next == old(self).next,
            final(self).store_name == old(self).store_name,
    {
        self.intro.push_front(content)
    }

    /// Divides the chunk in two at `text_index`, which must be strictly
    /// interior to the span; an already edited chunk may never be split,
    /// since its content is no longer a verbatim source slice. This chunk is
    /// shrunk in place to `[start, text_index)` and keeps its `intro`; the
    /// returned chunk spans `[text_index, end)`, takes over the whole
    /// `outro` and the `next` link, and carries no `intro`. Pointing this
    /// chunk's own `next` at the new chunk's index is the arena-owning
    /// caller's responsibility.
    pub fn split(&mut self, text_index: TextSize) -> (right: Chunk<'text>)
        requires
            old(self).span.0 < text_index,
            text_index < old(self).span.1,
            old(self).edited_content is None,
        ensures
            final(self).span == (Span(old(self).span.0, text_index)),
            right.span == (Span(text_index, old(self).span.1)),
            final(self).intro == old(self).intro,
            final(self).outro@ =~= Seq::<CowStr<'text>>::empty(),
            right.intro@ =~= Seq::<CowStr<'text>>::empty(),
            right.outro == old(self).outro,
            final(self).edited_content is None,
            right.edited_content is None,
            final(self).next == old(self).next,
            right.next == old(self).next,
            final(self).store_name == old(self).store_name,
            right.store_name == false,
    {
        let first_slice_span = Span(self.start(), text_index);
        let last_slice_span = Span(text_index, self.end());
        let mut new_chunk = Chunk::new(last_slice_span);
        std::mem::swap(&mut new_chunk.outro, &mut self.outro);
        self.span = first_slice_span;
        new_chunk.next = self.next;
        new_chunk
    }

    /// Replaces the chunk's emitted content with `content`, overriding the
    /// source-slice default. With `opts.overwrite` the queued `intro` and
    /// `outro` fragments are discarded as well; without it they survive and
    /// only the content is substituted. `opts.store_name` is recorded for
    /// name-tracking collaborators. Editing again simply replaces the
    /// content and reapplies the overwrite policy.
    pub fn edit(&mut self, content: CowStr<'text>, opts: EditOptions)
        ensures
            final(self).edited_content == Some(content),
            final(self).store_name == opts.store_name,
            final(self).span == old(self).span,
            final(self).next == old(self).next,
            opts.overwrite ==> final(self).intro@ =~= Seq::<CowStr<'text>>::empty(),
            opts.overwrite ==> final(self).outro@ =~= Seq::<CowStr<'text>>::empty(),
            !opts.overwrite ==> final(self).intro == old(self).intro,
            !opts.overwrite ==> final(self).outro == old(self).outro,
    {
        if opts.overwrite {
            self.intro.clear();
            self.outro.clear();
        }
        self.store_name = opts.store_name;
        self.edited_content = Some(content);
    }

    /// Whether any edit has been applied to this chunk. An edited chunk's
    /// content is no longer a verbatim source slice, so it may never be
    /// split again.
    pub fn is_edited(&self) -> (r: bool)
        ensures
            r == (self.edited_content is Some),
    {
        self.edited_content.is_some()
    }

    /// The views of the queued intro fragments, in emission order.
    pub open spec fn intro_views(self) -> Seq<Seq<char>> {
        self.intro@.map_values(|f: CowStr<'text>| f@)
    }

    /// The views of the queued outro fragments, in emission order.
    pub open spec fn outro_views(self) -> Seq<Seq<char>> {
        self.outro@.map_values(|f: CowStr<'text>| f@)
    }

    /// The chunk's own content: its replacement once edited, else the slice
    /// of the original source named by its span.
    pub open spec fn content_view(self, source: Seq<char>) -> Seq<char> {
        match self.edited_content {
            Some(c) => c@,
            None => source.subrange(self.span.0 as int, self.span.1 as int),
        }
    }

    /// What [`Chunk::fragments`] yields: every intro fragment in order, then
    /// the chunk's current content, then every outro fragment in order.
    pub open spec fn fragment_views(self, source: Seq<char>) -> Seq<Seq<char>> {
        self.intro_views() + seq![self.content_view(source)] + self.outro_views()
    }

    /// The chunk's full contribution to the final output text: its fragments
    /// concatenated.
    pub open spec fn emitted(self, source: Seq<char>) -> Seq<char> {
        self.fragment_views(source).flatten()
    }

    /// The chunk's fragments, derived fresh from its current state: all
    /// `intro` fragments in order, then the current content (the edited
    /// replacement if set, else the slice of `original_source` named by the
    /// span), then all `outro` fragments in order.
    pub fn fragments(&'text self, original_source: &'text CowStr<'text>) -> (r: Vec<&'text str>)
        requires
            self.edited_content is None ==> self.span.0 <= self.span.1
                && self.span.1 <= original_source@.len(),
        ensures
            r@.map_values(|s: &str| s@) == self.fragment_views(original_source@),
    {
        let ghost src = original_source@;
        let mut r: Vec<&'text str> = Vec::new();
        let mut i: usize = 0;
        while i < self.intro.len()
            invariant
                i <= self.intro@.len(),
                r@.len() == i,
                forall|k: int| 0 <= k < i ==> r@[k]@ == self.intro@[k]@,
            decreases self.intro@.len() - i,
        {
            r.push(self.intro[i].as_str());
            i += 1;
        }
        let content: &str = match &self.edited_content {
            Some(c) => c.as_str(),
            None => self.span.text(original_source.as_str()),
        };
        r.push(content);
        let mut j: usize = 0;
        while j < self.outro.len()
            invariant
                j <= self.outro@.len(),
                r@.len() == self.intro@.len() + 1 + j,
                forall|k: int| 0 <= k < self.intro@.len() ==> r@[k]@ == self.intro@[k]@,
                r@[self.intro@.len() as int]@ == self.content_view(src),
                forall|k: int|
                    0 <= k < j ==> r@[self.intro@.len() + 1 + k]@ == self.outro@[k]@,
                src == original_source@,
            decreases self.outro@.len() - j,
        {
            r.push(self.outro[j].as_str());
            j += 1;
        }
        proof {
            assert(r@.map_values(|s: &str| s@) =~= self.fragment_views(src));
        }
        r
    }
}

/// Law: a chunk's fragments concatenate to its intro fragments, then its
/// content, then its outro fragments, in that exact order.
pub proof fn lemma_fragments_concatenation<'text>(c: Chunk<'text>, source: Seq<char>)
    ensures
        c.emitted(source) == c.intro_views().flatten() + c.content_view(source)
            + c.outro_views().flatten(),
{
    let mid = seq![c.content_view(source)];
    vstd::seq_lib::lemma_flatten_concat(c.intro_views() + mid, c.outro_views());
    vstd::seq_lib::lemma_flatten_concat(c.intro_views(), mid);
    mid.lemma_flatten_singleton();
    assert(c.emitted(source) =~= c.intro_views().flatten() + c.content_view(source)
        + c.outro_views().flatten());
}

/// The arena owning every chunk, addressed by stable, densely packed
/// indices. It is append-only: it exposes no removal operation, and `push`
/// leaves every existing entry in place, so an index handed out once stays
/// valid for the arena's lifetime. "Deleting" content is modeled as editing
/// a chunk to empty content, which keeps the `next` chain intact.
pub struct ChunkVec<'text> {
    chunks: Vec<Chunk<'text>>,
}

impl<'text> View for ChunkVec<'text> {
    type V = Seq<Chunk<'text>>;

    closed spec fn view(&self) -> Seq<Chunk<'text>> {
        self.chunks@
    }
}

impl<'text> ChunkVec<'text> {
    pub fn new() -> (r: Self)
        ensures
            r@ =~= Seq::<Chunk<'text>>::empty(),
    {
        Self { chunks: Vec::new() }
    }

    pub fn len(&self) -> (r: usize)
        ensures
            r == self@.len(),
    {
        self.chunks.len()
    }

    /// Inserts a chunk and returns its newly minted index; every index
    /// minted earlier still names the same entry.
    pub fn push(&mut self, chunk: Chunk<'text>) -> (idx: ChunkIdx)
        requires
            old(self)@.len() < u32::MAX,
        ensures
            final(self)@ == old(self)@.push(chunk),
            idx.0 == old(self)@.len(),
    {
        let idx = ChunkIdx(self.chunks.len() as u32);
        self.chunks.push(chunk);
        idx
    }

    pub fn get(&self, idx: ChunkIdx) -> (r: &Chunk<'text>)
        requires
            idx.0 < self@.len(),
        ensures
            *r == self@[idx.0 as int],
    {
        &self.chunks[idx.0 as usize]
    }

    pub fn get_mut(&mut self, idx: ChunkIdx) -> (r: &mut Chunk<'text>)
        requires
            idx.0 < old(self)@.len(),
        ensures
            *r == old(self)@[idx.0 as int],
            final(self)@ == old(self)@.update(idx.0 as int, *final(r)),
    {
        &mut self.chunks[idx.0 as usize]
    }
}

} // verus!
