use vstd::prelude::*;

verus! {

/// A plain snapshot of the native result record after a call.
///
/// `we_wordv` holds one slot for each pointer of the native word array:
/// `None` where the pointer was null or its bytes were not valid UTF-8,
/// otherwise the word's text.
#[derive(Debug)]
pub struct WordexpRecord {
    pub we_wordc: usize,
    pub we_wordv: Vec<Option<String>>,
    pub we_offs: usize,
}

impl WordexpRecord {
    /// After a successful call the native array holds `we_offs + we_wordc` slots.
    pub open spec fn wf(&self) -> bool {
        self.we_wordv@.len() == self.we_offs + self.we_wordc
    }
}

/// The text of a slot, if it holds one.
pub open spec fn slot_view(slot: Option<String>) -> Option<Seq<char>> {
    match slot {
        Some(s) => Some(s@),
        None => None,
    }
}

/// The text of a borrowed word, if there is one.
pub open spec fn word_view(w: Option<&str>) -> Option<Seq<char>> {
    match w {
        Some(s) => Some(s@),
        None => None,
    }
}

/// The result handle: the caller's offset and word count, and the native
/// record once a call has filled it.
#[derive(Debug)]
pub struct Wordexp {
    pub we_offs: usize,
    pub we_wordc: usize,
    pub wordexp_ref: Option<WordexpRecord>,
}

impl Wordexp {
    /// A handle holding a record has its counts in step with it, and the
    /// record has one slot for each offset and word.
    pub open spec fn wf(&self) -> bool {
        match self.wordexp_ref {
            Some(rec) => rec.wf() && rec.we_offs == self.we_offs && rec.we_wordc == self.we_wordc,
            None => true,
        }
    }

    /// Whether the handle holds native state, which must be released once.
    pub open spec fn owns_native(&self) -> bool {
        self.wordexp_ref is Some
    }

    /// The slots that iteration produces, in order: none without native
    /// state, else the first `we_offs + we_wordc` slots of the record.
    pub open spec fn items(&self) -> Seq<Option<Seq<char>>> {
        match self.wordexp_ref {
            Some(rec) => rec.we_wordv@.take(self.we_offs + self.we_wordc).map_values(
                |slot: Option<String>| slot_view(slot),
            ),
            None => Seq::empty(),
        }
    }

    /// Creates an empty handle to be used with a word expansion.
    pub fn new(we_offs: usize) -> (r: Self)
        ensures
            r.we_offs == we_offs,
            r.we_wordc == 0,
            !r.owns_native(),
            r.wf(),
    {
        Wordexp { we_offs, we_wordc: 0, wordexp_ref: None }
    }

    /// Copies the counts out of the native record, if there is one.
    pub fn update(&mut self)
        ensures
            final(self).wordexp_ref == old(self).wordexp_ref,
            old(self).wordexp_ref matches Some(rec) ==> final(self).we_offs == rec.we_offs
                && final(self).we_wordc == rec.we_wordc,
            old(self).wordexp_ref is None ==> *final(self) == *old(self),
            old(self).wordexp_ref matches Some(rec) && rec.wf() ==> final(self).wf(),
    {
        match &self.wordexp_ref {
            Some(rec) => {
                let we_wordc = rec.we_wordc;
                let we_offs = rec.we_offs;
                self.we_wordc = we_wordc;
                self.we_offs = we_offs;
            },
            None => {},
        }
    }

    /// Takes the native state out of the handle, so that it is released
    /// exactly once; a handle that never held any gives `None`.
    pub fn release(&mut self) -> (r: Option<WordexpRecord>)
        ensures
            r == old(self).wordexp_ref,
            !final(self).owns_native(),
            final(self).we_offs == old(self).we_offs,
            final(self).we_wordc == old(self).we_wordc,
            final(self).wf(),
    {
        self.wordexp_ref.take()
    }

    /// A fresh iterator over the handle's words.
    pub fn iter(&self) -> (r: WordexpIter<'_>)
        ensures
            *r.source == *self,
            r.cursor == 0,
    {
        WordexpIter { source: self, cursor: 0 }
    }
}

/// A forward cursor over the word slots of a handle.
pub struct WordexpIter<'a> {
    pub source: &'a Wordexp,
    pub cursor: usize,
}

/// What `next` produces at `cursor`: the end past the last slot, else the slot.
pub open spec fn step(h: Wordexp, cursor: int) -> Option<Option<Seq<char>>> {
    if 0 <= cursor < h.items().len() {
        Some(h.items()[cursor])
    } else {
        None
    }
}

/// What `n` calls of `next` produce, from a cursor at `cursor`.
pub open spec fn run(h: Wordexp, cursor: int, n: nat) -> Seq<Option<Option<Seq<char>>>> {
    Seq::new(n, |k: int| step(h, cursor + k))
}

impl<'a> WordexpIter<'a> {
    /// Produces the slot at the cursor and moves past it, or `None` at the end.
    /// A slot without text gives `Some(None)`, and iteration goes on past it.
    pub fn next(&mut self) -> (r: Option<Option<&'a str>>)
        requires
            old(self).source.wf(),
        ensures
            final(self).source == old(self).source,
            r is Some <==> old(self).cursor < old(self).source.items().len(),
            r is Some ==> final(self).cursor == old(self).cursor + 1,
            r is None ==> final(self).cursor == old(self).cursor,
            (match r {
                Some(w) => Some(word_view(w)),
                None => None,
            }) == step(*old(self).source, old(self).cursor as int),
    {
        let src: &'a Wordexp = self.source;
        match &src.wordexp_ref {
            Some(rec) => {
                if self.cursor < rec.we_wordv.len() {
                    let slot: &'a Option<String> = &rec.we_wordv[self.cursor];
                    self.cursor = self.cursor + 1;
                    match slot {
                        Some(s) => Some(Some(s.as_str())),
                        None => Some(None),
                    }
                } else {
                    None
                }
            },
            None => None,
        }
    }
}

/// A handle that never held native state has nothing to release, and
/// iteration over it ends at once.
pub proof fn lemma_fresh_handle_owns_nothing(h: Wordexp)
    requires
        !h.owns_native(),
    ensures
        h.items().len() == 0,
        forall|n: nat, k: int| 0 <= k < n ==> #[trigger] run(h, 0, n)[k] is None,
{
}

/// Two iterators built over the same unchanged handle produce the same
/// sequence: each produces the handle's slots in order, then only `None`.
pub proof fn lemma_iteration_repeatable(h1: Wordexp, h2: Wordexp, n: nat)
    requires
        h1 == h2,
    ensures
        run(h1, 0, n) == run(h2, 0, n),
        forall|k: int|
            0 <= k < n ==> #[trigger] run(h1, 0, n)[k] == (if k < h1.items().len() {
                Some(h1.items()[k])
            } else {
                None
            }),
{
}

} // verus!
