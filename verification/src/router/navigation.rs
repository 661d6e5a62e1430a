//! Rebuilding the composition, moving the highlight, paging, and the frame of the
//! current page.

use vstd::prelude::*;

use super::{composed_cells, has_candidate, Composed, Composition, Router};
use crate::layout::{
    duplicate_preedit, duplicate_text, Candidate, CandidateKind, CandidateLayout, Frame, PreeditKind,
    PreeditSegment, WordFrequency,
};

verus! {

/// The first cell holding a candidate, walking from `from` one cell at a time in the
/// given direction; `None` when the walk leaves the cells first.
pub open spec fn scan(cells: Seq<Option<Candidate>>, from: int, forward: bool) -> Option<int>
    decreases (if forward {
        cells.len() - from
    } else {
        from + 1
    }),
{
    if from < 0 || from >= cells.len() {
        None
    } else if cells[from] is Some {
        Some(from)
    } else {
        scan(cells, if forward {
            from + 1
        } else {
            from - 1
        }, forward)
    }
}

/// The first cell holding a candidate in `[lo, hi)`.
pub open spec fn first_in(cells: Seq<Option<Candidate>>, lo: int, hi: int) -> Option<int>
    decreases hi - lo,
{
    if lo >= hi || lo < 0 || lo >= cells.len() {
        None
    } else if cells[lo] is Some {
        Some(lo)
    } else {
        first_in(cells, lo + 1, hi)
    }
}

pub open spec fn min_int(a: int, b: int) -> int {
    if a <= b {
        a
    } else {
        b
    }
}

pub open spec fn clamp(x: int, lo: int, hi: int) -> int {
    if x < lo {
        lo
    } else if x > hi {
        hi
    } else {
        x
    }
}

/// Number of pages of `count` cells, `page_size` to a page.
pub open spec fn page_count(count: int, page_size: int) -> int {
    (count + page_size - 1) / page_size
}

/// Walking pages from `target` in the given direction: the first page that holds a
/// candidate, with that page's first candidate.
pub open spec fn page_scan(
    cells: Seq<Option<Candidate>>,
    page_size: int,
    pages: int,
    target: int,
    forward: bool,
) -> Option<(int, int)>
    decreases (if forward {
        pages - target
    } else {
        target + 1
    }),
{
    if target < 0 || target >= pages {
        None
    } else {
        let start = target * page_size;
        match first_in(cells, start, min_int(start + page_size, cells.len() as int)) {
            Some(index) => Some((target, index)),
            None => page_scan(cells, page_size, pages, if forward {
                target + 1
            } else {
                target - 1
            }, forward),
        }
    }
}

/// The first cell holding a candidate, or 0.
pub open spec fn first_candidate(cells: Seq<Option<Candidate>>) -> int {
    match scan(cells, 0, true) {
        Some(i) => i,
        None => 0,
    }
}

pub open spec fn opt_int(o: Option<usize>) -> Option<int> {
    match o {
        Some(i) => Some(i as int),
        None => None,
    }
}

proof fn lemma_scan_found(cells: Seq<Option<Candidate>>, from: int, forward: bool)
    requires
        forward ==> from >= 0,
        !forward ==> from < cells.len(),
    ensures
        scan(cells, from, forward) matches Some(j) ==> 0 <= j < cells.len() && cells[j] is Some
            && (forward ==> from <= j) && (!forward ==> j <= from)
            && (forall|k: int|
            #![trigger cells[k]]
            (if forward {
                from <= k < j
            } else {
                j < k <= from
            }) ==> cells[k] is None),
        scan(cells, from, forward) is None ==> forall|k: int|
            #![trigger cells[k]]
            0 <= k < cells.len() && (if forward {
                from <= k
            } else {
                k <= from
            }) ==> cells[k] is None,
    decreases (if forward {
        cells.len() - from
    } else {
        from + 1
    }),
{
    if from < 0 || from >= cells.len() {
    } else if cells[from] is Some {
    } else {
        lemma_scan_found(cells, if forward {
            from + 1
        } else {
            from - 1
        }, forward);
    }
}

proof fn lemma_first_in(cells: Seq<Option<Candidate>>, lo: int, hi: int)
    requires
        0 <= lo,
        hi <= cells.len(),
    ensures
        first_in(cells, lo, hi) matches Some(j) ==> lo <= j < hi && cells[j] is Some,
        first_in(cells, lo, hi) is None ==> forall|k: int|
            #![trigger cells[k]]
            lo <= k < hi ==> cells[k] is None,
    decreases hi - lo,
{
    if lo >= hi || lo >= cells.len() {
    } else if cells[lo] is Some {
    } else {
        lemma_first_in(cells, lo + 1, hi);
    }
}

proof fn lemma_page_scan(
    cells: Seq<Option<Candidate>>,
    page_size: int,
    pages: int,
    target: int,
    forward: bool,
)
    requires
        page_size > 0,
    ensures
        page_scan(cells, page_size, pages, target, forward) matches Some((t, i)) ==> 0 <= t
            < pages && 0 <= i < cells.len() && cells[i] is Some && t * page_size <= i < t
            * page_size + page_size,
    decreases (if forward {
        pages - target
    } else {
        target + 1
    }),
{
    if target < 0 || target >= pages {
    } else {
        let start = target * page_size;
        assert(target * page_size >= 0) by (nonlinear_arith)
            requires
                target >= 0,
                page_size > 0,
        ;
        lemma_first_in(cells, start, min_int(start + page_size, cells.len() as int));
        match first_in(cells, start, min_int(start + page_size, cells.len() as int)) {
            Some(index) => {},
            None => {
                lemma_page_scan(cells, page_size, pages, if forward {
                    target + 1
                } else {
                    target - 1
                }, forward);
            },
        }
    }
}

/// Walks forward from `from` to the first cell holding a candidate.
fn find_forward(cells: &Vec<Option<Candidate>>, from: usize) -> (r: Option<usize>)
    ensures
        opt_int(r) == scan(cells@, from as int, true),
{
    let n = cells.len();
    let mut i = from;
    while i < n
        invariant
            n == cells@.len(),
            from <= i,
            scan(cells@, from as int, true) == scan(cells@, i as int, true),
        decreases n - i,
    {
        if cells[i].is_some() {
            return Some(i);
        }
        i = i + 1;
    }
    None
}

/// Walks backward from `before - 1` to the first cell holding a candidate.
fn find_backward(cells: &Vec<Option<Candidate>>, before: usize) -> (r: Option<usize>)
    requires
        before <= cells@.len(),
    ensures
        opt_int(r) == scan(cells@, before - 1, false),
{
    let mut i = before;
    while i > 0
        invariant
            i <= before,
            before <= cells@.len(),
            scan(cells@, before - 1, false) == scan(cells@, i - 1, false),
        decreases i,
    {
        if cells[i - 1].is_some() {
            return Some(i - 1);
        }
        i = i - 1;
    }
    None
}

/// The first cell holding a candidate in `[lo, hi)`.
fn find_in(cells: &Vec<Option<Candidate>>, lo: usize, hi: usize) -> (r: Option<usize>)
    requires
        hi <= cells@.len(),
    ensures
        opt_int(r) == first_in(cells@, lo as int, hi as int),
{
    let mut i = lo;
    while i < hi
        invariant
            hi <= cells@.len(),
            lo <= i,
            first_in(cells@, lo as int, hi as int) == first_in(cells@, i as int, hi as int),
        decreases hi - i,
    {
        if cells[i].is_some() {
            return Some(i);
        }
        i = i + 1;
    }
    None
}

/// How a cell is drawn: its candidate, or for an empty cell an empty placeholder text
/// that keeps the digit labels in their places.
pub open spec fn shows(cell: Option<Candidate>, drawn: Candidate) -> bool {
    match cell {
        Some(c) => drawn == c,
        None => drawn.text@.len() == 0 && drawn.kind == CandidateKind::Chinese,
    }
}

/// The cell holds a candidate that reads `text`.
pub open spec fn reads(cell: Option<Candidate>, text: Seq<char>) -> bool {
    match cell {
        Some(c) => c.text@ == text,
        None => false,
    }
}

/// The drawn candidates of a page.
pub open spec fn shows_all(cells: Seq<Option<Candidate>>, drawn: Seq<Candidate>) -> bool {
    &&& drawn.len() == cells.len()
    &&& forall|k: int| 0 <= k < cells.len() ==> shows(cells[k], #[trigger] drawn[k])
}

impl Router {
    /// The router after the highlight went one candidate forward (or back), skipping
    /// empty cells; at the end it stays.
    pub open spec fn stepped(self, forward: bool) -> Router {
        match scan(self.cells(), if forward {
            self.highlight + 1
        } else {
            self.highlight - 1
        }, forward) {
            Some(j) => Router { highlight: j as usize, navigated: true, ..self },
            None => self,
        }
    }

    /// The router after `n` such steps.
    pub open spec fn steps(self, n: nat, forward: bool) -> Router
        decreases n,
    {
        if n == 0 {
            self
        } else {
            self.stepped(forward).steps((n - 1) as nat, forward)
        }
    }

    /// The router after [`Self::move_highlight`]: `|delta|` candidates in the direction
    /// of `delta`, stopping at the first or last candidate.
    pub open spec fn moved(self, delta: int) -> Router {
        if delta == 0 {
            self
        } else if self.count() == 0 {
            Router { highlight: 0, ..self }
        } else if delta > 0 {
            self.steps(delta as nat, true)
        } else {
            self.steps((-delta) as nat, false)
        }
    }

    /// Moves the highlight by `delta` candidates (empty cells do not count), clamped to
    /// the first and last candidate; crossing page edges turns the page.
    pub fn move_highlight(&mut self, delta: isize)
        requires
            old(self).wf(),
        ensures
            final(self).wf(),
            *final(self) == old(self).moved(delta as int),
    {
        if delta == 0 {
            return;
        }
        let count = self.candidate_count();
        if count == 0 {
            self.highlight = 0;
            return;
        }
        let forward = delta > 0;
        let mut remaining: usize = if forward {
            delta as usize
        } else {
            ((-(delta + 1)) as usize) + 1
        };
        assert(remaining as int == if forward {
            delta as int
        } else {
            -(delta as int)
        });
        let ghost total = remaining as nat;
        while remaining > 0
            invariant
                old(self).wf(),
                self.wf(),
                count == self.count(),
                count > 0,
                forward == (delta > 0),
                *self == (Router {
                    highlight: self.highlight,
                    navigated: self.navigated,
                    ..*old(self)
                }),
                old(self).steps(total, forward) == self.steps(remaining as nat, forward),
            decreases remaining,
        {
            let found = match &self.composed {
                Some(Composed::Candidates { layout, .. }) => {
                    if forward {
                        find_forward(&layout.cells, self.highlight + 1)
                    } else {
                        find_backward(&layout.cells, self.highlight)
                    }
                },
                _ => None,
            };
            proof {
                lemma_scan_found(self.cells(), if forward {
                    self.highlight + 1
                } else {
                    self.highlight - 1
                }, forward);
            }
            match found {
                Some(next) => {
                    proof {
                        if let Some(Composed::Candidates { layout, .. }) = &self.composed {
                            assert(next < layout.cells.len());
                        }
                    }
                    self.navigated = true;
                    self.highlight = next;
                    remaining = remaining - 1;
                },
                None => {
                    proof {
                        lemma_steps_fixed(*self, remaining as nat, forward);
                    }
                    remaining = 0;
                },
            }
        }
    }

    /// The router after [`Self::page`], and whether a page turn happened.
    pub open spec fn paged(self, step: int) -> (Router, bool) {
        if step == 0 {
            (self, false)
        } else if self.count() == 0 {
            (Router { highlight: 0, ..self }, false)
        } else {
            let size = self.config.page_size as int;
            let pages = page_count(self.count() as int, size);
            let current = self.highlight as int / size;
            let target = clamp(current + step, 0, pages - 1);
            match page_scan(self.cells(), size, pages, target, step > 0) {
                Some((t, i)) => (
                    Router { highlight: i as usize, navigated: self.navigated || t != current, ..self },
                    t != current,
                ),
                None => (self, false),
            }
        }
    }

    /// Turns `step` whole pages (clamped to the first and last page); the highlight lands
    /// on the first candidate of the target page, or of the next page in that direction
    /// that has one. Returns whether the page changed (the engine is told of the turn).
    pub fn page(&mut self, step: isize) -> (turned: bool)
        requires
            old(self).wf(),
        ensures
            final(self).wf(),
            (*final(self), turned) == old(self).paged(step as int),
    {
        if step == 0 {
            return false;
        }
        let count = self.candidate_count();
        if count == 0 {
            self.highlight = 0;
            return false;
        }
        let size = self.config.page_size;
        proof {
            crate::layout::lemma_pages(count as int, size as int);
        }
        let pages = if count % size == 0 {
            count / size
        } else {
            count / size + 1
        };
        let current = self.highlight / size;
        assert(current < pages) by (nonlinear_arith)
            requires
                size > 0,
                self.highlight < count,
                current == self.highlight / size,
                pages == (count + size - 1) / (size as int),
        ;
        let forward = step > 0;
        let target: usize = if forward {
            let s = step as usize;
            if s >= pages - 1 - current {
                pages - 1
            } else {
                current + s
            }
        } else {
            let s: usize = ((-(step + 1)) as usize) + 1;
            if s >= current {
                0
            } else {
                current - s
            }
        };
        assert(target == clamp(current + step, 0, pages - 1));
        let ghost cells = self.cells();
        let found = match &self.composed {
            Some(Composed::Candidates { layout, .. }) => {
                page_search(&layout.cells, size, pages, target, forward)
            },
            _ => None,
        };
        proof {
            lemma_page_scan(cells, size as int, pages as int, target as int, forward);
        }
        match found {
            Some((t, index)) => {
                let turned = t != current;
                if turned {
                    self.navigated = true;
                }
                self.highlight = index;
                turned
            },
            None => false,
        }
    }

    /// Number of cells of the composition (0 when nothing or raw text is shown).
    pub fn candidate_count(&self) -> (r: usize)
        ensures
            r == self.count(),
    {
        match &self.composed {
            Some(Composed::Candidates { layout, .. }) => layout.len(),
            _ => 0,
        }
    }

    pub open spec fn layout_cell(self, index: int) -> Option<Candidate> {
        if 0 <= index < self.count() {
            self.cells()[index]
        } else {
            None
        }
    }

    /// The candidate in cell `index` (across pages).
    pub fn layout_candidate(&self, index: usize) -> (r: Option<Candidate>)
        ensures
            r == self.layout_cell(index as int),
    {
        match &self.composed {
            Some(Composed::Candidates { layout, .. }) => layout.candidate(index),
            _ => None,
        }
    }

    /// The first cell whose candidate reads `text`: after a frequency change the
    /// highlight goes back to the same word.
    pub fn index_of_candidate(&self, text: &String) -> (r: Option<usize>)
        ensures
            r matches Some(i) ==> i < self.count() && reads(self.cells()[i as int], text@),
            r matches Some(i) ==> forall|k: int|
                0 <= k < i ==> !reads(#[trigger] self.cells()[k], text@),
            r is None ==> forall|k: int|
                0 <= k < self.count() ==> !reads(#[trigger] self.cells()[k], text@),
    {
        match &self.composed {
            Some(Composed::Candidates { layout, .. }) => {
                let n = layout.cells.len();
                let mut i: usize = 0;
                while i < n
                    invariant
                        n == layout.cells@.len(),
                        self.cells() == layout.cells@,
                        i <= n,
                        forall|k: int| 0 <= k < i ==> !reads(#[trigger] layout.cells@[k], text@),
                    decreases n - i,
                {
                    if let Some(c) = &layout.cells[i] {
                        if c.text == *text {
                            assert(reads(layout.cells@[i as int], text@));
                            return Some(i);
                        }
                    }
                    i = i + 1;
                }
                None
            },
            _ => None,
        }
    }

    /// The router after [`Self::recompose`] with `input`.
    pub open spec fn recomposed(self, input: Composition) -> Router {
        match input {
            Composition::Idle => Router {
                highlight: 0,
                navigated: false,
                sentence: None,
                preview_frequency: false,
                composed: None,
                ..self
            },
            Composition::Plain { text, cursor } => Router {
                highlight: 0,
                navigated: false,
                sentence: None,
                composed: Some(Composed::Raw { text, cursor }),
                ..self
            },
            Composition::Query { preedit, cursor, cells } => Router {
                highlight: first_candidate(cells@) as usize,
                navigated: false,
                sentence: None,
                composed: Some(
                    Composed::Candidates {
                        preedit,
                        cursor,
                        layout: CandidateLayout { cells, page_size: self.config.page_size },
                    },
                ),
                ..self
            },
        }
    }

    /// After the buffer changed: rebuild the composition from what the engine reported,
    /// put the highlight on the first candidate, and forget the completion. When nothing
    /// is composed any more the frequency preview ends too.
    pub fn recompose(&mut self, input: Composition)
        requires
            old(self).wf(),
        ensures
            final(self).wf(),
            *final(self) == old(self).recomposed(input),
    {
        self.highlight = 0;
        self.navigated = false;
        self.sentence = None;
        match input {
            Composition::Idle => {
                self.preview_frequency = false;
                self.composed = None;
            },
            Composition::Plain { text, cursor } => {
                self.composed = Some(Composed::Raw { text, cursor });
            },
            Composition::Query { preedit, cursor, cells } => {
                let first = find_forward(&cells, 0);
                proof {
                    lemma_scan_found(cells@, 0, true);
                }
                let layout = CandidateLayout::new(cells, self.config.page_size);
                self.composed = Some(Composed::Candidates { preedit, cursor, layout });
                if let Some(index) = first {
                    self.highlight = index;
                }
            },
        }
    }

    /// The frame of [`Self::current_frame`].
    pub open spec fn frame_ok(self, f: Frame) -> bool {
        match self.composed {
            None => f.empty_spec(),
            Some(Composed::Raw { text, cursor }) => {
                &&& f.preedit@.len() == 1
                &&& f.preedit@[0].text == text
                &&& f.preedit@[0].kind == PreeditKind::Typed
                &&& f.cursor == cursor
                &&& f.candidates@.len() == 0
                &&& f.highlight == usize::MAX
                &&& f.page == 0
                &&& f.page_count == 1
                &&& f.sentence is None
                &&& f.notice == self.notice
                &&& !f.reviewing
                &&& f.frequencies@.len() == 0
            },
            Some(Composed::Candidates { preedit, cursor, layout }) => {
                let size = self.config.page_size as int;
                let h = if self.highlight < layout.cells@.len() {
                    self.highlight as int
                } else if layout.cells@.len() == 0 {
                    0
                } else {
                    layout.cells@.len() - 1
                };
                let page = h / size;
                &&& f.preedit@ == preedit@
                &&& f.cursor == cursor
                &&& shows_all(layout.page_cells(page), f.candidates@)
                &&& f.highlight == h - page * size
                &&& f.page == page
                &&& f.page_count == (if layout.pages_spec() == 0 {
                    1
                } else {
                    layout.pages_spec()
                })
                &&& f.sentence == self.sentence
                &&& f.notice == self.notice
                &&& !f.reviewing
                &&& f.frequencies@.len() == 0
            },
        }
    }

    /// A frame with the selection counts drawn beside its candidates: while the
    /// frequency key is held, `counts` (the engine's counts of each shown candidate, in
    /// order: one per candidate); otherwise none.
    pub fn with_frequencies(&self, frame: Frame, counts: Vec<Option<WordFrequency>>) -> (f: Frame)
        requires
            self.preview_frequency ==> counts@.len() == frame.candidates@.len(),
        ensures
            self.preview_frequency ==> f.frequencies@.len() == f.candidates@.len(),
            !self.preview_frequency ==> f.frequencies@.len() == 0,
            f.frequencies@ == (if self.preview_frequency {
                counts@
            } else {
                seq![]
            }),
            f.preedit == frame.preedit,
            f.cursor == frame.cursor,
            f.candidates == frame.candidates,
            f.highlight == frame.highlight,
            f.page == frame.page,
            f.page_count == frame.page_count,
            f.sentence == frame.sentence,
            f.notice == frame.notice,
            f.reviewing == frame.reviewing,
    {
        let frequencies = if self.preview_frequency {
            counts
        } else {
            Vec::new()
        };
        Frame { frequencies, ..frame }
    }

    /// The frame for the current state: nothing composed gives the empty frame, raw text
    /// gives its preedit alone, candidates give the page that holds the highlight. The
    /// selection counts are added with [`Self::with_frequencies`].
    pub fn current_frame(&self) -> (f: Frame)
        requires
            self.wf(),
        ensures
            self.frame_ok(f),
    {
        match &self.composed {
            None => Frame::empty(),
            Some(Composed::Raw { text, cursor }) => {
                let mut preedit = Vec::new();
                preedit.push(PreeditSegment { text: text.clone(), kind: PreeditKind::Typed });
                assert(preedit@.len() == 1);
                Frame {
                    preedit,
                    cursor: *cursor,
                    candidates: Vec::new(),
                    highlight: usize::MAX,
                    page: 0,
                    page_count: 1,
                    sentence: None,
                    notice: duplicate_text(&self.notice),
                    reviewing: false,
                    frequencies: Vec::new(),
                }
            },
            Some(Composed::Candidates { preedit, cursor, layout }) => {
                let size = self.config.page_size;
                let n = layout.len();
                let h = if self.highlight < n {
                    self.highlight
                } else if n == 0 {
                    0
                } else {
                    n - 1
                };
                let page = h / size;
                assert(page * size <= h) by (nonlinear_arith)
                    requires
                        size > 0,
                        page == h / size,
                ;
                let items = page_items(&layout.cells, page, size);
                let pages = layout.pages();
                Frame {
                    preedit: duplicate_preedit(preedit),
                    cursor: *cursor,
                    candidates: items,
                    highlight: h - page * size,
                    page,
                    page_count: if pages == 0 {
                        1
                    } else {
                        pages
                    },
                    sentence: duplicate_text(&self.sentence),
                    notice: duplicate_text(&self.notice),
                    reviewing: false,
                    frequencies: Vec::new(),
                }
            },
        }
    }
}

/// Walks pages from `target` in the given direction to the first page holding a
/// candidate; that page and its first candidate.
fn page_search(
    cells: &Vec<Option<Candidate>>,
    size: usize,
    pages: usize,
    target: usize,
    forward: bool,
) -> (r: Option<(usize, usize)>)
    requires
        size > 0,
        pages == page_count(cells@.len() as int, size as int),
        target < pages,
    ensures
        match r {
            Some((t, i)) => page_scan(cells@, size as int, pages as int, target as int, forward)
                == Some((t as int, i as int)),
            None => page_scan(cells@, size as int, pages as int, target as int, forward) is None,
        },
{
    let n = cells.len();
    let mut t = target;
    loop
        invariant
            n == cells@.len(),
            size > 0,
            pages == page_count(n as int, size as int),
            t < pages,
            page_scan(cells@, size as int, pages as int, target as int, forward) == page_scan(
                cells@,
                size as int,
                pages as int,
                t as int,
                forward,
            ),
        decreases (if forward {
            pages - t
        } else {
            t + 1
        }),
    {
        assert(t * size < n) by (nonlinear_arith)
            requires
                size > 0,
                t < pages,
                pages == (n + size - 1) / (size as int),
        ;
        let start = t * size;
        let end = if n - start >= size {
            start + size
        } else {
            n
        };
        assert(end == min_int(start + size, n as int));
        let found = find_in(cells, start, end);
        if let Some(index) = found {
            return Some((t, index));
        }
        assert(page_scan(cells@, size as int, pages as int, t as int, forward) == page_scan(
            cells@,
            size as int,
            pages as int,
            if forward {
                t + 1
            } else {
                t - 1
            },
            forward,
        ));
        if forward {
            if t + 1 >= pages {
                assert(page_scan(cells@, size as int, pages as int, t + 1, forward) is None);
                return None;
            }
            t = t + 1;
        } else {
            if t == 0 {
                assert(page_scan(cells@, size as int, pages as int, -1, forward) is None);
                return None;
            }
            t = t - 1;
        }
    }
}

/// The drawn cells of page `page`.
fn page_items(cells: &Vec<Option<Candidate>>, page: usize, size: usize) -> (r: Vec<Candidate>)
    requires
        size > 0,
        page * size <= cells@.len(),
    ensures
        shows_all((CandidateLayout { cells: *cells, page_size: size }).page_cells(page as int), r@),
{
    let ghost layout = CandidateLayout { cells: *cells, page_size: size };
    let n = cells.len();
    let start = page * size;
    let mut out: Vec<Candidate> = Vec::new();
    if start >= n {
        return out;
    }
    let end = if n - start >= size {
        start + size
    } else {
        n
    };
    let ghost page_cells = layout.page_cells(page as int);
    assert(page_cells == cells@.subrange(start as int, end as int));
    let mut i = start;
    while i < end
        invariant
            start <= i <= end <= n,
            n == cells@.len(),
            page_cells == cells@.subrange(start as int, end as int),
            out@.len() == i - start,
            forall|k: int| 0 <= k < i - start ==> shows(page_cells[k], #[trigger] out@[k]),
        decreases end - i,
    {
        let drawn = match &cells[i] {
            Some(c) => c.duplicate(),
            None => Candidate { text: String::new(), kind: CandidateKind::Chinese },
        };
        out.push(drawn);
        i = i + 1;
    }
    out
}

} // verus!

verus! {

proof fn lemma_scan_exact(cells: Seq<Option<Candidate>>, from: int, forward: bool, j: int)
    requires
        0 <= j < cells.len(),
        cells[j] is Some,
        forward ==> 0 <= from <= j,
        !forward ==> j <= from < cells.len(),
        forall|k: int|
            #![trigger cells[k]]
            (if forward {
                from <= k < j
            } else {
                j < k <= from
            }) ==> cells[k] is None,
    ensures
        scan(cells, from, forward) == Some(j),
    decreases (if forward {
        j - from
    } else {
        from - j
    }),
{
    if from != j {
        lemma_scan_exact(cells, if forward {
            from + 1
        } else {
            from - 1
        }, forward, j);
    }
}

proof fn lemma_steps_fixed(r: Router, n: nat, forward: bool)
    requires
        r.stepped(forward) == r,
    ensures
        r.steps(n, forward) == r,
    decreases n,
{
    if n > 0 {
        lemma_steps_fixed(r, (n - 1) as nat, forward);
    }
}

/// Moving the highlight one candidate and then one candidate back returns to where it
/// was, when it rested on a candidate and the first move went somewhere.
pub proof fn law_move_back_restores(r: Router, forward: bool)
    requires
        r.wf(),
        r.count() > 0,
        r.cells()[r.highlight as int] is Some,
        r.stepped(forward).highlight != r.highlight,
    ensures
        r.stepped(forward).stepped(!forward).highlight == r.highlight,
{
    let cells = r.cells();
    let h = r.highlight as int;
    let from = if forward {
        h + 1
    } else {
        h - 1
    };
    lemma_scan_found(cells, from, forward);
    match scan(cells, from, forward) {
        Some(j) => {
            let m = r.stepped(forward);
            if let Some(Composed::Candidates { layout, .. }) = r.composed {
                assert(j < layout.cells.len());
            }
            assert(m.highlight as int == j);
            assert(m.cells() == cells);
            if forward {
                lemma_scan_exact(cells, j - 1, false, h);
            } else {
                lemma_scan_exact(cells, j + 1, true, h);
            }
        },
        None => {},
    }
}

proof fn lemma_steps_full(r: Router, n: nat, forward: bool)
    requires
        r.count() > 0,
        r.highlight < r.count(),
        forall|k: int| 0 <= k < r.count() ==> #[trigger] r.cells()[k] is Some,
    ensures
        r.steps(n, forward) == (Router {
            highlight: r.steps(n, forward).highlight,
            navigated: r.steps(n, forward).navigated,
            ..r
        }),
        r.steps(n, forward).highlight as int == clamp(
            if forward {
                r.highlight + n
            } else {
                r.highlight - n
            },
            0,
            r.count() - 1,
        ),
        r.steps(n, forward).navigated == (r.navigated || r.steps(n, forward).highlight
            != r.highlight),
    decreases n,
{
    if n > 0 {
        let cells = r.cells();
        let h = r.highlight as int;
        let from = if forward {
            h + 1
        } else {
            h - 1
        };
        let s = r.stepped(forward);
        if 0 <= from < cells.len() {
            assert(cells[from] is Some);
            assert(scan(cells, from, forward) == Some(from));
            if let Some(Composed::Candidates { layout, .. }) = r.composed {
                assert(from < layout.cells.len());
            }
            assert(s.highlight as int == from);
        } else {
            assert(scan(cells, from, forward) is None);
            assert(s == r);
        }
        assert(s.cells() == cells);
        lemma_steps_full(s, (n - 1) as nat, forward);
        assert(r.steps(n, forward) == s.steps((n - 1) as nat, forward));
    }
}

/// With a candidate in every cell, moving by `delta` puts the highlight `delta` cells
/// on, clamped to the first and last candidate; it counts as navigation when it moved.
pub proof fn law_move_by_delta_clamps(r: Router, delta: int)
    requires
        r.wf(),
        r.count() > 0,
        forall|k: int| 0 <= k < r.count() ==> #[trigger] r.cells()[k] is Some,
    ensures
        r.moved(delta).highlight as int == clamp(r.highlight + delta, 0, r.count() - 1),
        r.moved(delta).navigated == (r.navigated || r.moved(delta).highlight != r.highlight),
        r.moved(delta) == (Router {
            highlight: r.moved(delta).highlight,
            navigated: r.moved(delta).navigated,
            ..r
        }),
{
    if delta > 0 {
        lemma_steps_full(r, delta as nat, true);
    } else if delta < 0 {
        lemma_steps_full(r, (-delta) as nat, false);
    }
}

} // verus!
