//! Candidates, their arrangement into pages, and the frame that a front end draws.

use vstd::prelude::*;

verus! {

/// Where a candidate came from.
#[derive(Debug, Clone, Copy, PartialEq, Eq, Structural)]
pub enum CandidateKind {
    /// A word or phrase of the Chinese dictionary.
    Chinese,
    /// An English word.
    English,
    /// An emoji or symbol.
    Symbol,
    /// A word from the cloud service, or a one-line notice shown in the candidate window.
    Cloud,
}

/// One candidate as the window shows it.
#[derive(Debug, Clone, PartialEq, Eq)]
pub struct Candidate {
    pub text: String,
    pub kind: CandidateKind,
}

impl Candidate {
    pub fn new(text: String, kind: CandidateKind) -> (r: Candidate)
        ensures
            r.text == text,
            r.kind == kind,
    {
        Candidate { text, kind }
    }

    /// A copy with the same text and kind.
    pub fn duplicate(&self) -> (r: Candidate)
        ensures
            r == *self,
    {
        Candidate { text: self.text.clone(), kind: self.kind }
    }
}

/// A copy of an optional candidate.
pub fn duplicate_cell(cell: &Option<Candidate>) -> (r: Option<Candidate>)
    ensures
        r == *cell,
{
    match cell {
        Some(c) => Some(c.duplicate()),
        None => None,
    }
}

/// The optional text is present and reads `text`.
pub open spec fn holds_text(o: Option<String>, text: Seq<char>) -> bool {
    match o {
        Some(t) => t@ == text,
        None => false,
    }
}

/// A copy of an optional text.
pub fn duplicate_text(text: &Option<String>) -> (r: Option<String>)
    ensures
        r == *text,
{
    match text {
        Some(t) => Some(t.clone()),
        None => None,
    }
}

/// A copy of a preedit line.
pub fn duplicate_preedit(segments: &Vec<PreeditSegment>) -> (r: Vec<PreeditSegment>)
    ensures
        r@ == segments@,
{
    let mut out: Vec<PreeditSegment> = Vec::new();
    let mut i: usize = 0;
    while i < segments.len()
        invariant
            i <= segments@.len(),
            out@ == segments@.subrange(0, i as int),
        decreases segments@.len() - i,
    {
        out.push(PreeditSegment { text: segments[i].text.clone(), kind: segments[i].kind });
        assert(segments@.subrange(0, i + 1) == segments@.subrange(0, i as int).push(segments@[i as int]));
        i = i + 1;
    }
    assert(segments@.subrange(0, segments@.len() as int) == segments@);
    out
}

/// Candidates cut into pages of `page_size` cells. A cell may be empty: a place kept for
/// a cloud word that has not arrived; it keeps the digit labels in their fixed places.
#[derive(Debug, Clone)]
pub struct CandidateLayout {
    pub cells: Vec<Option<Candidate>>,
    pub page_size: usize,
}

impl CandidateLayout {
    pub open spec fn wf(self) -> bool {
        self.page_size > 0
    }

    /// The candidate in cell `index` (across pages); `None` past the end or for an empty cell.
    pub open spec fn cell(self, index: int) -> Option<Candidate> {
        if 0 <= index < self.cells@.len() {
            self.cells@[index]
        } else {
            None
        }
    }

    /// Number of pages, the last one possibly short.
    pub open spec fn pages_spec(self) -> nat
        recommends
            self.wf(),
    {
        ((self.cells@.len() + self.page_size - 1) / (self.page_size as int)) as nat
    }

    /// The cells of page `page`.
    pub open spec fn page_cells(self, page: int) -> Seq<Option<Candidate>> {
        let start = page * self.page_size;
        let end = if start + self.page_size <= self.cells@.len() {
            start + self.page_size
        } else {
            self.cells@.len() as int
        };
        if start < self.cells@.len() {
            self.cells@.subrange(start, end)
        } else {
            seq![]
        }
    }

    pub fn new(cells: Vec<Option<Candidate>>, page_size: usize) -> (r: CandidateLayout)
        requires
            page_size > 0,
        ensures
            r.wf(),
            r == (CandidateLayout { cells, page_size }),
    {
        CandidateLayout { cells, page_size }
    }

    pub fn len(&self) -> (r: usize)
        ensures
            r == self.cells@.len(),
    {
        self.cells.len()
    }

    pub fn candidate(&self, index: usize) -> (r: Option<Candidate>)
        ensures
            r == self.cell(index as int),
    {
        if index < self.cells.len() {
            duplicate_cell(&self.cells[index])
        } else {
            None
        }
    }

    pub fn pages(&self) -> (r: usize)
        requires
            self.wf(),
        ensures
            r == self.pages_spec(),
    {
        let n = self.cells.len();
        proof {
            lemma_pages(n as int, self.page_size as int);
        }
        if n % self.page_size == 0 {
            n / self.page_size
        } else {
            n / self.page_size + 1
        }
    }
}

/// The cloud words among the cells, in order.
pub open spec fn cloud_words(cells: Seq<Option<Candidate>>) -> Seq<Candidate>
    decreases cells.len(),
{
    if cells.len() == 0 {
        seq![]
    } else {
        let head = match cells[0] {
            Some(c) => if c.kind == CandidateKind::Cloud {
                seq![c]
            } else {
                seq![]
            },
            None => seq![],
        };
        head + cloud_words(cells.drop_first())
    }
}

/// Number of empty cells.
pub open spec fn empty_count(cells: Seq<Option<Candidate>>) -> nat
    decreases cells.len(),
{
    if cells.len() == 0 {
        0
    } else {
        (if cells[0] is None {
            1nat
        } else {
            0nat
        }) + empty_count(cells.drop_first())
    }
}

/// The cells with the empty ones filled by `words`, front to back, as far as the words
/// go.
pub open spec fn filled(cells: Seq<Option<Candidate>>, words: Seq<Candidate>) -> Seq<Option<Candidate>>
    decreases cells.len(),
{
    if cells.len() == 0 {
        seq![]
    } else if cells[0] is None && words.len() > 0 {
        seq![Some(words[0])] + filled(cells.drop_first(), words.drop_first())
    } else {
        seq![cells[0]] + filled(cells.drop_first(), words)
    }
}

impl CandidateLayout {
    /// The cloud words shown, in order.
    pub fn cloud(&self) -> (r: Vec<Candidate>)
        ensures
            r@ == cloud_words(self.cells@),
    {
        let n = self.cells.len();
        let mut out: Vec<Candidate> = Vec::new();
        let mut i: usize = 0;
        assert(self.cells@.subrange(0, n as int) == self.cells@);
        assert(out@ + cloud_words(self.cells@) == cloud_words(self.cells@));
        while i < n
            invariant
                n == self.cells@.len(),
                i <= n,
                out@ + cloud_words(self.cells@.subrange(i as int, n as int)) == cloud_words(
                    self.cells@,
                ),
            decreases n - i,
        {
            let ghost rest = self.cells@.subrange(i as int, n as int);
            assert(rest.drop_first() == self.cells@.subrange(i + 1, n as int));
            assert(rest[0] == self.cells@[i as int]);
            let ghost before = out@;
            match &self.cells[i] {
                Some(c) => if c.kind == CandidateKind::Cloud {
                    out.push(c.duplicate());
                    assert(before + cloud_words(rest) == out@ + cloud_words(rest.drop_first()));
                },
                None => {},
            }
            i = i + 1;
        }
        assert(self.cells@.subrange(n as int, n as int).len() == 0);
        assert(out@ + seq![] == out@);
        out
    }

    /// Puts cloud words into the empty cells, front to back.
    pub fn set_cloud(&mut self, words: Vec<Candidate>)
        ensures
            final(self).cells@ == filled(old(self).cells@, words@),
            final(self).page_size == old(self).page_size,
    {
        let n = self.cells.len();
        let m = words.len();
        let mut out: Vec<Option<Candidate>> = Vec::new();
        let mut i: usize = 0;
        let mut j: usize = 0;
        assert(self.cells@.subrange(0, n as int) == self.cells@);
        assert(words@.subrange(0, m as int) == words@);
        assert(out@ + filled(self.cells@, words@) == filled(self.cells@, words@));
        while i < n
            invariant
                n == self.cells@.len(),
                m == words@.len(),
                i <= n,
                j <= m,
                out@ + filled(self.cells@.subrange(i as int, n as int), words@.subrange(
                    j as int,
                    m as int,
                )) == filled(self.cells@, words@),
            decreases n - i,
        {
            let ghost rest = self.cells@.subrange(i as int, n as int);
            let ghost ws = words@.subrange(j as int, m as int);
            assert(rest.drop_first() == self.cells@.subrange(i + 1, n as int));
            assert(rest[0] == self.cells@[i as int]);
            let ghost before = out@;
            if self.cells[i].is_none() && j < m {
                assert(ws[0] == words@[j as int]);
                assert(ws.drop_first() == words@.subrange(j + 1, m as int));
                out.push(Some(words[j].duplicate()));
                assert(before + filled(rest, ws) == out@ + filled(rest.drop_first(), ws.drop_first()));
                j = j + 1;
            } else {
                out.push(duplicate_cell(&self.cells[i]));
                assert(before + filled(rest, ws) == out@ + filled(rest.drop_first(), ws));
            }
            i = i + 1;
        }
        assert(self.cells@.subrange(n as int, n as int).len() == 0);
        assert(out@ + seq![] == out@);
        self.cells = out;
    }
}

pub proof fn lemma_cloud_words_are_cloud(cells: Seq<Option<Candidate>>)
    ensures
        forall|k: int|
            0 <= k < cloud_words(cells).len() ==> (#[trigger] cloud_words(cells)[k]).kind
                == CandidateKind::Cloud,
    decreases cells.len(),
{
    if cells.len() > 0 {
        lemma_cloud_words_are_cloud(cells.drop_first());
    }
}

proof fn lemma_filled_cloud(cells: Seq<Option<Candidate>>, words: Seq<Candidate>)
    requires
        forall|k: int| 0 <= k < words.len() ==> (#[trigger] words[k]).kind == CandidateKind::Cloud,
        forall|k: int|
            0 <= k < cells.len() ==> !(#[trigger] cells[k] matches Some(c) && c.kind
                == CandidateKind::Cloud),
        empty_count(cells) >= words.len(),
    ensures
        cloud_words(filled(cells, words)) == words,
    decreases cells.len(),
{
    if cells.len() == 0 {
    } else {
        let rest = cells.drop_first();
        assert forall|k: int|
            0 <= k < rest.len() implies !(#[trigger] rest[k] matches Some(c) && c.kind
                == CandidateKind::Cloud) by {
            assert(rest[k] == cells[k + 1]);
        }
        let f = filled(cells, words);
        if cells[0] is None && words.len() > 0 {
            let ws = words.drop_first();
            assert forall|k: int| 0 <= k < ws.len() implies (#[trigger] ws[k]).kind
                == CandidateKind::Cloud by {
                assert(ws[k] == words[k + 1]);
            }
            lemma_filled_cloud(rest, ws);
            assert(f[0] == Some(words[0]));
            assert(f.drop_first() == filled(rest, ws));
            assert(words == seq![words[0]] + ws);
        } else {
            lemma_filled_cloud(rest, words);
            assert(f[0] == cells[0]);
            assert(f.drop_first() == filled(rest, words));
            assert(!(cells[0] matches Some(c) && c.kind == CandidateKind::Cloud));
            assert(seq![] + words == words);
        }
    }
}

/// Cloud words put into a fresh layout that has none of its own and enough empty cells
/// are exactly the cloud words it shows.
pub proof fn law_cloud_words_come_back(fresh: Seq<Option<Candidate>>, words: Seq<Candidate>)
    requires
        forall|k: int| 0 <= k < words.len() ==> (#[trigger] words[k]).kind == CandidateKind::Cloud,
        forall|k: int|
            0 <= k < fresh.len() ==> !(#[trigger] fresh[k] matches Some(c) && c.kind
                == CandidateKind::Cloud),
        empty_count(fresh) >= words.len(),
    ensures
        cloud_words(filled(fresh, words)) == words,
{
    lemma_filled_cloud(fresh, words);
}

/// `ceil(n / size)` is the quotient, plus one when there is a remainder; it never
/// exceeds `n`.
pub proof fn lemma_pages(n: int, size: int)
    requires
        size > 0,
        n >= 0,
    ensures
        (n + size - 1) / size == n / size + (if n % size == 0 {
            0int
        } else {
            1int
        }),
        n % size != 0 ==> n / size + 1 <= n,
        (n + size - 1) / size <= n,
{
    let q = n / size;
    let r = n % size;
    assert(n == size * q + r && 0 <= r < size) by (nonlinear_arith)
        requires
            size > 0,
            q == n / size,
            r == n % size,
    ;
    assert(q >= 0) by (nonlinear_arith)
        requires
            size > 0,
            n >= 0,
            q == n / size,
    ;
    if r == 0 {
        assert((n + size - 1) / size == q) by (nonlinear_arith)
            requires
                size > 0,
                n == size * q,
        ;
        assert(q <= n) by (nonlinear_arith)
            requires
                size > 0,
                n == size * q,
                q >= 0,
        ;
    } else {
        assert((n + size - 1) / size == q + 1) by (nonlinear_arith)
            requires
                size > 0,
                n == size * q + r,
                0 < r < size,
        ;
        assert(q + 1 <= n) by (nonlinear_arith)
            requires
                size > 0,
                n == size * q + r,
                0 < r < size,
                q >= 0,
        ;
    }
}

/// How a piece of the preedit line is drawn.
#[derive(Debug, Clone, Copy, PartialEq, Eq, Structural)]
pub enum PreeditKind {
    /// Typed letters.
    Typed,
    /// Letters after the cursor.
    Rest,
    /// Letters replaced by a correction.
    Corrected,
    /// An auxiliary code.
    AuxCode,
    /// Words already chosen but not yet handed to the application.
    Pending,
}

#[derive(Debug, Clone, PartialEq, Eq)]
pub struct PreeditSegment {
    pub text: String,
    pub kind: PreeditKind,
}

/// Screen rectangle in physical pixels.
#[derive(Debug, Clone, Copy, PartialEq, Eq, Structural)]
pub struct ScreenRect {
    pub left: i32,
    pub top: i32,
    pub right: i32,
    pub bottom: i32,
}

/// What the candidate window shows.
#[derive(Debug, Clone)]
pub struct Frame {
    pub preedit: Vec<PreeditSegment>,
    pub cursor: usize,
    /// The candidates of the shown page; an empty cell becomes an empty text.
    pub candidates: Vec<Candidate>,
    /// Highlighted position within the page; `usize::MAX` for none.
    pub highlight: usize,
    pub page: usize,
    pub page_count: usize,
    /// A whole-sentence completion offered with Tab.
    pub sentence: Option<String>,
    /// One line of notice beside the candidates.
    pub notice: Option<String>,
    /// The window shows the phrase being learned, not a composition.
    pub reviewing: bool,
    /// While the frequency key is held, the selection counts of each shown candidate
    /// (in the order of `candidates`; `None` for one without counts); empty otherwise.
    pub frequencies: Vec<Option<WordFrequency>>,
}

/// How often a candidate was chosen: over all input (`total`) and for this input
/// (`selected`).
#[derive(Debug, Clone, Copy, PartialEq, Eq, Structural)]
pub struct WordFrequency {
    pub total: u32,
    pub selected: u32,
}

impl Frame {
    pub open spec fn empty_spec(self) -> bool {
        self.preedit@.len() == 0 && self.candidates@.len() == 0 && self.notice is None
            && self.sentence is None && !self.reviewing && self.frequencies@.len() == 0 && self.cursor == 0
            && self.highlight == 0 && self.page == 0 && self.page_count == 0
    }

    /// The frame of no composition: the window is hidden.
    pub fn empty() -> (r: Frame)
        ensures
            r.empty_spec(),
    {
        Frame {
            preedit: Vec::new(),
            cursor: 0,
            candidates: Vec::new(),
            highlight: 0,
            page: 0,
            page_count: 0,
            sentence: None,
            notice: None,
            reviewing: false,
            frequencies: Vec::new(),
        }
    }

    /// Nothing to draw.
    pub fn is_empty(&self) -> (r: bool)
        ensures
            r == (self.preedit@.len() == 0 && self.candidates@.len() == 0),
    {
        self.preedit.len() == 0 && self.candidates.len() == 0
    }
}

} // verus!
