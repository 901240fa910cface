use vstd::prelude::*;

use crate::time::{parse_timestamp, timestamp_in, Timestamp};

verus! {

/// One side of a conflict: a resource and its window `[start, end)`.
#[derive(Debug, Clone)]
pub struct ReservationWindow {
    pub rid: String,
    pub start: Timestamp,
    pub end: Timestamp,
}

/// The reservation being made and the existing one it overlaps.
#[derive(Debug, Clone)]
pub struct ReservationConflict {
    pub new: ReservationWindow,
    pub old: ReservationWindow,
}

/// What the database said of a conflict: structured when its detail could
/// be read, else the detail as it came.
#[derive(Debug, Clone)]
pub enum ReservationConflictInfo {
    Parsed(ReservationConflict),
    Unparsed(String),
}

/// Mathematical value of a window.
pub struct WindowView {
    pub rid: Seq<char>,
    pub start: Timestamp,
    pub end: Timestamp,
}

/// Mathematical value of conflict information.
pub enum ConflictView {
    Parsed(WindowView, WindowView),
    Unparsed(Seq<char>),
}

impl View for ReservationWindow {
    type V = WindowView;

    open spec fn view(&self) -> WindowView {
        WindowView { rid: self.rid@, start: self.start, end: self.end }
    }
}

impl View for ReservationConflictInfo {
    type V = ConflictView;

    open spec fn view(&self) -> ConflictView {
        match self {
            ReservationConflictInfo::Parsed(c) => ConflictView::Parsed(c.new@, c.old@),
            ReservationConflictInfo::Unparsed(s) => ConflictView::Unparsed(s@),
        }
    }
}

impl PartialEq for ReservationWindow {
    fn eq(&self, other: &ReservationWindow) -> (r: bool)
        ensures
            r == (self@ == other@),
    {
        let r = self.rid == other.rid && self.start == other.start && self.end == other.end;
        proof {
            if r {
                assert(self@ == other@);
            }
        }
        r
    }
}

impl vstd::std_specs::cmp::PartialEqSpecImpl for ReservationWindow {
    open spec fn obeys_eq_spec() -> bool {
        true
    }

    open spec fn eq_spec(&self, other: &ReservationWindow) -> bool {
        self@ == other@
    }
}

impl PartialEq for ReservationConflict {
    fn eq(&self, other: &ReservationConflict) -> (r: bool)
        ensures
            r == (self.new@ == other.new@ && self.old@ == other.old@),
    {
        self.new.eq(&other.new) && self.old.eq(&other.old)
    }
}

impl vstd::std_specs::cmp::PartialEqSpecImpl for ReservationConflict {
    open spec fn obeys_eq_spec() -> bool {
        true
    }

    open spec fn eq_spec(&self, other: &ReservationConflict) -> bool {
        self.new@ == other.new@ && self.old@ == other.old@
    }
}

impl PartialEq for ReservationConflictInfo {
    fn eq(&self, other: &ReservationConflictInfo) -> (r: bool)
        ensures
            r == (self@ == other@),
    {
        match (self, other) {
            (ReservationConflictInfo::Parsed(a), ReservationConflictInfo::Parsed(b)) => a.eq(b),
            (ReservationConflictInfo::Unparsed(a), ReservationConflictInfo::Unparsed(b)) => *a == *b,
            _ => false,
        }
    }
}

impl vstd::std_specs::cmp::PartialEqSpecImpl for ReservationConflictInfo {
    open spec fn obeys_eq_spec() -> bool {
        true
    }

    open spec fn eq_spec(&self, other: &ReservationConflictInfo) -> bool {
        self@ == other@
    }
}

/// The strftime format of the instants in a conflict detail.
pub open spec fn detail_time_format() -> Seq<char> {
    "%Y-%m-%d %H:%M:%S%#z"@
}

/// The texts of one window in a conflict detail: resource, start, end.
pub type WindowText = (Seq<char>, Seq<char>, Seq<char>);

/// The separator `, ["` that ends a resource id does not stand in the id;
/// a time holds no double quote.
pub open spec fn window_text_ok(w: WindowText) -> bool {
    &&& forall|k: int| !lit_at(w.0, k, key_sep())
    &&& forall|k: int| 0 <= k < w.1.len() ==> w.1[k] != '"'
    &&& forall|k: int| 0 <= k < w.2.len() ==> w.2[k] != '"'
}

pub open spec fn key_open() -> Seq<char> {
    "(resource_id, timespan)=("@
}

pub open spec fn key_sep() -> Seq<char> {
    ", [\""@
}

pub open spec fn time_sep() -> Seq<char> {
    "\",\""@
}

pub open spec fn key_close() -> Seq<char> {
    "\"))"@
}

/// `(resource_id, timespan)=(<rid>, ["<start>","<end>"))`
pub open spec fn window_text(w: WindowText) -> Seq<char> {
    key_open() + w.0 + key_sep() + w.1 + time_sep() + w.2 + key_close()
}

/// The detail that the database gives for an exclusion violation between
/// the new window `a` and the existing window `b`.
pub open spec fn detail_text(a: WindowText, b: WindowText) -> Seq<char> {
    "Key "@ + window_text(a) + " conflicts with existing key "@ + window_text(b)
}

/// `s` is the detail for windows `a` and `b`, with or without a final period.
pub open spec fn detail_matches(s: Seq<char>, a: WindowText, b: WindowText) -> bool {
    &&& window_text_ok(a)
    &&& window_text_ok(b)
    &&& (s == detail_text(a, b) || s == detail_text(a, b) + "."@)
}

/// The window that the texts `w` describe, when both times read.
pub open spec fn window_of(w: WindowText) -> Option<WindowView> {
    match (timestamp_in(w.1, detail_time_format()), timestamp_in(w.2, detail_time_format())) {
        (Some(start), Some(end)) => Some(WindowView { rid: w.0, start, end }),
        _ => None,
    }
}

/// What a conflict detail says: the two windows where it has the shape of
/// the database's detail and its four times read, else the text itself.
pub open spec fn conflict_info_of(s: Seq<char>) -> ConflictView {
    if exists|a: WindowText, b: WindowText| detail_matches(s, a, b) {
        let (a, b) = choose|a: WindowText, b: WindowText| detail_matches(s, a, b);
        match (window_of(a), window_of(b)) {
            (Some(n), Some(o)) => ConflictView::Parsed(n, o),
            _ => ConflictView::Unparsed(s),
        }
    } else {
        ConflictView::Unparsed(s)
    }
}

/// `lit` stands in `cs` at `pos`.
pub open spec fn lit_at(cs: Seq<char>, pos: int, lit: Seq<char>) -> bool {
    0 <= pos && pos + lit.len() <= cs.len() && cs.subrange(pos, pos + lit.len()) == lit
}

spec fn after_lit(cs: Seq<char>, pos: int, lit: Seq<char>) -> Option<int> {
    if lit_at(cs, pos, lit) {
        Some(pos + lit.len())
    } else {
        None
    }
}

/// First position at or after `from` that holds `ch`.
spec fn first_stop(cs: Seq<char>, from: int, ch: char) -> Option<int>
    decreases cs.len() - from,
{
    if from < 0 || from >= cs.len() {
        None
    } else if cs[from] == ch {
        Some(from)
    } else {
        first_stop(cs, from + 1, ch)
    }
}

/// First position at or after `from` where `lit` stands.
spec fn first_lit(cs: Seq<char>, from: int, lit: Seq<char>) -> Option<int>
    decreases cs.len() - from,
{
    if from < 0 || from >= cs.len() {
        None
    } else if lit_at(cs, from, lit) {
        Some(from)
    } else {
        first_lit(cs, from + 1, lit)
    }
}

spec fn window_parse(cs: Seq<char>, pos: int) -> Option<(WindowText, int)> {
    match after_lit(cs, pos, key_open()) {
        None => None,
        Some(rid_at) => match first_lit(cs, rid_at, key_sep()) {
            None => None,
            Some(c) => match after_lit(cs, c, key_sep()) {
                None => None,
                Some(start_at) => match first_stop(cs, start_at, '"') {
                    None => None,
                    Some(q) => match after_lit(cs, q, time_sep()) {
                        None => None,
                        Some(end_at) => match first_stop(cs, end_at, '"') {
                            None => None,
                            Some(e) => match after_lit(cs, e, key_close()) {
                                None => None,
                                Some(after) => Some(
                                    ((cs.subrange(rid_at, c), cs.subrange(start_at, q), cs.subrange(end_at, e)), after),
                                ),
                            },
                        },
                    },
                },
            },
        },
    }
}

spec fn detail_parse(cs: Seq<char>) -> Option<(WindowText, WindowText)> {
    match after_lit(cs, 0, "Key "@) {
        None => None,
        Some(p) => match window_parse(cs, p) {
            None => None,
            Some((a, q)) => match after_lit(cs, q, " conflicts with existing key "@) {
                None => None,
                Some(m) => match window_parse(cs, m) {
                    None => None,
                    Some((b, e)) => if e == cs.len() || (e + 1 == cs.len() && cs[e] == '.') {
                        Some((a, b))
                    } else {
                        None
                    },
                },
            },
        },
    }
}

proof fn lemma_first_stop_found(cs: Seq<char>, from: int, ch: char)
    requires
        first_stop(cs, from, ch) is Some,
    ensures
        from <= first_stop(cs, from, ch)->Some_0 < cs.len(),
        cs[first_stop(cs, from, ch)->Some_0] == ch,
        forall|k: int| from <= k < first_stop(cs, from, ch)->Some_0 ==> cs[k] != ch,
    decreases cs.len() - from,
{
    if cs[from] != ch {
        lemma_first_stop_found(cs, from + 1, ch);
    }
}

proof fn lemma_first_stop_at(cs: Seq<char>, from: int, i: int, ch: char)
    requires
        0 <= from <= i < cs.len(),
        cs[i] == ch,
        forall|k: int| from <= k < i ==> cs[k] != ch,
    ensures
        first_stop(cs, from, ch) == Some(i),
    decreases i - from,
{
    if from < i {
        lemma_first_stop_at(cs, from + 1, i, ch);
    }
}

proof fn lemma_first_lit_found(cs: Seq<char>, from: int, lit: Seq<char>)
    requires
        first_lit(cs, from, lit) is Some,
    ensures
        from <= first_lit(cs, from, lit)->Some_0 < cs.len(),
        lit_at(cs, first_lit(cs, from, lit)->Some_0, lit),
        forall|k: int| from <= k < first_lit(cs, from, lit)->Some_0 ==> !lit_at(cs, k, lit),
    decreases cs.len() - from,
{
    if !lit_at(cs, from, lit) {
        lemma_first_lit_found(cs, from + 1, lit);
    }
}

proof fn lemma_first_lit_at(cs: Seq<char>, from: int, i: int, lit: Seq<char>)
    requires
        0 <= from <= i < cs.len(),
        lit_at(cs, i, lit),
        forall|k: int| from <= k < i ==> !lit_at(cs, k, lit),
    ensures
        first_lit(cs, from, lit) == Some(i),
    decreases i - from,
{
    if from < i {
        lemma_first_lit_at(cs, from + 1, i, lit);
    }
}

proof fn lemma_literals()
    ensures
        key_open().len() == 25,
        key_sep() == seq![',', ' ', '[', '"'],
        time_sep().len() == 3 && time_sep()[0] == '"',
        key_close().len() == 3 && key_close()[0] == '"',
{
    reveal_strlit("(resource_id, timespan)=(");
    reveal_strlit(", [\"");
    reveal_strlit("\",\"");
    reveal_strlit("\"))");
}

/// A window that the parse finds is one whose text stands there.
proof fn lemma_window_parse_sound(cs: Seq<char>, pos: int)
    requires
        window_parse(cs, pos) is Some,
    ensures
        ({
            let (w, end) = window_parse(cs, pos)->Some_0;
            window_text_ok(w) && end == pos + window_text(w).len() && lit_at(cs, pos, window_text(w))
        }),
{
    lemma_literals();
    let rid_at = pos + key_open().len();
    let c = first_lit(cs, rid_at, key_sep())->Some_0;
    lemma_first_lit_found(cs, rid_at, key_sep());
    let start_at = c + key_sep().len();
    let q = first_stop(cs, start_at, '"')->Some_0;
    lemma_first_stop_found(cs, start_at, '"');
    let end_at = q + time_sep().len();
    let e = first_stop(cs, end_at, '"')->Some_0;
    lemma_first_stop_found(cs, end_at, '"');
    let after = e + key_close().len();
    let w = (cs.subrange(rid_at, c), cs.subrange(start_at, q), cs.subrange(end_at, e));
    assert forall|k: int| !lit_at(w.0, k, key_sep()) by {
        if lit_at(w.0, k, key_sep()) {
            assert(cs.subrange(rid_at + k, rid_at + k + 4) =~= w.0.subrange(k, k + 4));
            assert(lit_at(cs, rid_at + k, key_sep()));
        }
    }
    assert(cs.subrange(pos, after) =~= window_text(w));
}

/// Before the comma that follows an id free of the separator, the
/// separator stands nowhere: its later characters are not commas.
proof fn lemma_id_has_no_separator(cs: Seq<char>, rid_at: int, c: int, rid: Seq<char>)
    requires
        0 <= rid_at <= c < cs.len(),
        cs.subrange(rid_at, c) == rid,
        cs[c] == ',',
        forall|k: int| !lit_at(rid, k, key_sep()),
    ensures
        forall|k: int| rid_at <= k < c ==> !lit_at(cs, k, key_sep()),
{
    lemma_literals();
    assert forall|k: int| rid_at <= k < c implies !lit_at(cs, k, key_sep()) by {
        if lit_at(cs, k, key_sep()) {
            if k + 4 <= c {
                assert(cs.subrange(k, k + 4) =~= rid.subrange(k - rid_at, k - rid_at + 4));
                assert(lit_at(rid, k - rid_at, key_sep()));
            } else {
                assert(cs.subrange(k, k + 4)[c - k] == cs[c]);
            }
        }
    }
}

/// Where a window's text stands, the parse finds exactly that window.
proof fn lemma_window_parse_complete(cs: Seq<char>, pos: int, w: WindowText)
    requires
        window_text_ok(w),
        lit_at(cs, pos, window_text(w)),
    ensures
        window_parse(cs, pos) == Some((w, pos + window_text(w).len())),
{
    lemma_literals();
    let t = window_text(w);
    let sub = cs.subrange(pos, pos + t.len());
    let rid_at = pos + key_open().len();
    let c = rid_at + w.0.len();
    let start_at = c + key_sep().len();
    let q = start_at + w.1.len();
    let end_at = q + time_sep().len();
    let e = end_at + w.2.len();
    let after = e + key_close().len();
    assert(after == pos + t.len());
    assert forall|k: int| pos <= k < after implies cs[k] == t[k - pos] by {
        assert(sub[k - pos] == cs[k]);
    }
    assert(cs.subrange(pos, rid_at) =~= key_open()) by {
        assert forall|k: int| 0 <= k < key_open().len() implies t[k] == key_open()[k] by {}
    }
    assert(cs.subrange(rid_at, c) =~= w.0) by {
        assert forall|k: int| 0 <= k < w.0.len() implies t[rid_at - pos + k] == w.0[k] by {}
    }
    assert(cs.subrange(c, start_at) =~= key_sep()) by {
        assert forall|k: int| 0 <= k < key_sep().len() implies t[c - pos + k] == key_sep()[k] by {}
    }
    assert(cs.subrange(start_at, q) =~= w.1) by {
        assert forall|k: int| 0 <= k < w.1.len() implies t[start_at - pos + k] == w.1[k] by {}
    }
    assert(cs.subrange(q, end_at) =~= time_sep()) by {
        assert forall|k: int| 0 <= k < time_sep().len() implies t[q - pos + k] == time_sep()[k] by {}
    }
    assert(cs.subrange(end_at, e) =~= w.2) by {
        assert forall|k: int| 0 <= k < w.2.len() implies t[end_at - pos + k] == w.2[k] by {}
    }
    assert(cs.subrange(e, after) =~= key_close()) by {
        assert forall|k: int| 0 <= k < key_close().len() implies t[e - pos + k] == key_close()[k] by {}
    }
    assert(cs[c] == ',') by {
        assert(cs.subrange(c, start_at)[0] == cs[c]);
    }
    lemma_id_has_no_separator(cs, rid_at, c, w.0);
    lemma_first_lit_at(cs, rid_at, c, key_sep());
    assert forall|k: int| start_at <= k < q implies cs[k] != '"' by {
        assert(cs.subrange(start_at, q)[k - start_at] == cs[k]);
    }
    assert(cs[q] == '"') by {
        assert(cs.subrange(q, end_at)[0] == cs[q]);
    }
    lemma_first_stop_at(cs, start_at, q, '"');
    assert forall|k: int| end_at <= k < e implies cs[k] != '"' by {
        assert(cs.subrange(end_at, e)[k - end_at] == cs[k]);
    }
    assert(cs[e] == '"') by {
        assert(cs.subrange(e, after)[0] == cs[e]);
    }
    lemma_first_stop_at(cs, end_at, e, '"');
}

proof fn lemma_detail_parse_sound(cs: Seq<char>)
    requires
        detail_parse(cs) is Some,
    ensures
        detail_matches(cs, detail_parse(cs)->Some_0.0, detail_parse(cs)->Some_0.1),
{
    reveal_strlit("Key ");
    reveal_strlit(" conflicts with existing key ");
    reveal_strlit(".");
    let p = 4int;
    lemma_window_parse_sound(cs, p);
    let (a, q) = window_parse(cs, p)->Some_0;
    let m = q + 29;
    lemma_window_parse_sound(cs, m);
    let (b, e) = window_parse(cs, m)->Some_0;
    assert(cs.subrange(0, e) =~= detail_text(a, b)) by {
        assert(cs.subrange(0, e) =~= cs.subrange(0, p) + cs.subrange(p, q) + cs.subrange(q, m)
            + cs.subrange(m, e));
    }
    if e == cs.len() {
        assert(cs =~= cs.subrange(0, e));
    } else {
        assert(cs =~= cs.subrange(0, e) + "."@);
    }
}

proof fn lemma_detail_parse_complete(cs: Seq<char>, a: WindowText, b: WindowText)
    requires
        detail_matches(cs, a, b),
    ensures
        detail_parse(cs) == Some((a, b)),
{
    reveal_strlit("Key ");
    reveal_strlit(" conflicts with existing key ");
    reveal_strlit(".");
    let d = detail_text(a, b);
    let p = 4int;
    let q = p + window_text(a).len();
    let m = q + 29;
    let e = m + window_text(b).len();
    assert(e == d.len());
    assert(cs.subrange(0, e) =~= d);
    assert(cs.subrange(0, p) =~= "Key "@) by {
        assert(d.subrange(0, p) =~= "Key "@);
    }
    assert(cs.subrange(p, q) =~= window_text(a)) by {
        assert(d.subrange(p, q) =~= window_text(a));
    }
    assert(cs.subrange(q, m) =~= " conflicts with existing key "@) by {
        assert(d.subrange(q, m) =~= " conflicts with existing key "@);
    }
    assert(cs.subrange(m, e) =~= window_text(b)) by {
        assert(d.subrange(m, e) =~= window_text(b));
    }
    lemma_window_parse_complete(cs, p, a);
    lemma_window_parse_complete(cs, m, b);
    if cs != d {
        assert(cs == d + "."@);
        assert(cs[e] == '.');
    }
}

/// Where `lit` stands in `s` at `pos`, the position after it.
fn expect_lit(s: &str, pos: usize, lit: &str) -> (r: Option<usize>)
    requires
        pos <= s@.len(),
    ensures
        match r {
            Some(i) => after_lit(s@, pos as int, lit@) == Some(i as int),
            None => after_lit(s@, pos as int, lit@) is None,
        },
{
    let n = s.unicode_len();
    let m = lit.unicode_len();
    if m > n - pos {
        return None;
    }
    let mut j: usize = 0;
    while j < m
        invariant
            n == s@.len(),
            m == lit@.len(),
            pos + m <= n,
            j <= m,
            forall|k: int| 0 <= k < j ==> s@[pos + k] == lit@[k],
        decreases m - j,
    {
        if s.get_char(pos + j) != lit.get_char(j) {
            assert(s@.subrange(pos as int, pos + m)[j as int] != lit@[j as int]);
            return None;
        }
        j = j + 1;
    }
    assert(s@.subrange(pos as int, pos + m) =~= lit@);
    Some(pos + m)
}

/// The first position at or after `from` that holds `ch`.
fn find_char(s: &str, from: usize, ch: char) -> (r: Option<usize>)
    requires
        from <= s@.len(),
    ensures
        match r {
            Some(i) => first_stop(s@, from as int, ch) == Some(i as int),
            None => first_stop(s@, from as int, ch) is None,
        },
{
    let n = s.unicode_len();
    let mut i = from;
    while i < n
        invariant
            n == s@.len(),
            from <= i <= n,
            first_stop(s@, from as int, ch) == first_stop(s@, i as int, ch),
        decreases n - i,
    {
        if s.get_char(i) == ch {
            return Some(i);
        }
        i = i + 1;
    }
    None
}

/// The first position at or after `from` where `lit` stands.
fn find_lit(s: &str, from: usize, lit: &str) -> (r: Option<usize>)
    requires
        from <= s@.len(),
    ensures
        match r {
            Some(i) => first_lit(s@, from as int, lit@) == Some(i as int),
            None => first_lit(s@, from as int, lit@) is None,
        },
{
    let n = s.unicode_len();
    let mut i = from;
    while i < n
        invariant
            n == s@.len(),
            from <= i <= n,
            first_lit(s@, from as int, lit@) == first_lit(s@, i as int, lit@),
        decreases n - i,
    {
        if expect_lit(s, i, lit).is_some() {
            return Some(i);
        }
        i = i + 1;
    }
    None
}

/// The positions of a window's resource, start and end in `s` at `pos`,
/// and the position after it.
fn parse_window(s: &str, pos: usize) -> (r: Option<(usize, usize, usize, usize, usize, usize, usize)>)
    requires
        pos <= s@.len(),
    ensures
        match r {
            Some((rid_at, c, start_at, q, end_at, e, end)) => {
                &&& rid_at <= c <= start_at <= q <= end_at <= e <= end <= s@.len()
                &&& window_parse(s@, pos as int) == Some(
                    (
                        (
                            s@.subrange(rid_at as int, c as int),
                            s@.subrange(start_at as int, q as int),
                            s@.subrange(end_at as int, e as int),
                        ),
                        end as int,
                    ),
                )
            },
            None => window_parse(s@, pos as int) is None,
        },
{
    proof {
        lemma_literals();
    }
    let rid_at = match expect_lit(s, pos, "(resource_id, timespan)=(") {
        Some(i) => i,
        None => return None,
    };
    let c = match find_lit(s, rid_at, ", [\"") {
        Some(i) => i,
        None => return None,
    };
    proof {
        lemma_first_lit_found(s@, rid_at as int, key_sep());
    }
    let start_at = match expect_lit(s, c, ", [\"") {
        Some(i) => i,
        None => return None,
    };
    let q = match find_char(s, start_at, '"') {
        Some(i) => i,
        None => return None,
    };
    proof {
        lemma_first_stop_found(s@, start_at as int, '"');
    }
    let end_at = match expect_lit(s, q, "\",\"") {
        Some(i) => i,
        None => return None,
    };
    let e = match find_char(s, end_at, '"') {
        Some(i) => i,
        None => return None,
    };
    proof {
        lemma_first_stop_found(s@, end_at as int, '"');
    }
    let end = match expect_lit(s, e, "\"))") {
        Some(i) => i,
        None => return None,
    };
    Some((rid_at, c, start_at, q, end_at, e, end))
}

/// The texts of the two windows of a conflict detail, by position.
fn parse_detail(s: &str) -> (r: Option<((usize, usize, usize, usize, usize, usize), (usize, usize, usize, usize, usize, usize))>)
    ensures
        match r {
            Some(((a1, a2, a3, a4, a5, a6), (b1, b2, b3, b4, b5, b6))) => {
                &&& a1 <= a2 <= a3 <= a4 <= a5 <= a6 <= s@.len()
                &&& b1 <= b2 <= b3 <= b4 <= b5 <= b6 <= s@.len()
                &&& detail_parse(s@) == Some(
                    (
                        (
                            s@.subrange(a1 as int, a2 as int),
                            s@.subrange(a3 as int, a4 as int),
                            s@.subrange(a5 as int, a6 as int),
                        ),
                        (
                            s@.subrange(b1 as int, b2 as int),
                            s@.subrange(b3 as int, b4 as int),
                            s@.subrange(b5 as int, b6 as int),
                        ),
                    ),
                )
            },
            None => detail_parse(s@) is None,
        },
{
    let n = s.unicode_len();
    let p = match expect_lit(s, 0, "Key ") {
        Some(i) => i,
        None => return None,
    };
    let (a1, a2, a3, a4, a5, a6, q) = match parse_window(s, p) {
        Some(w) => w,
        None => return None,
    };
    let m = match expect_lit(s, q, " conflicts with existing key ") {
        Some(i) => i,
        None => return None,
    };
    let (b1, b2, b3, b4, b5, b6, e) = match parse_window(s, m) {
        Some(w) => w,
        None => return None,
    };
    if e == n || (e + 1 == n && s.get_char(e) == '.') {
        Some(((a1, a2, a3, a4, a5, a6), (b1, b2, b3, b4, b5, b6)))
    } else {
        None
    }
}

/// The window at the given positions of `s`, when both of its times read.
fn window_at(s: &str, rid: (usize, usize), start: (usize, usize), end: (usize, usize)) -> (r: Option<ReservationWindow>)
    requires
        rid.0 <= rid.1 <= s@.len(),
        start.0 <= start.1 <= s@.len(),
        end.0 <= end.1 <= s@.len(),
    ensures
        match r {
            Some(w) => window_of(
                (
                    s@.subrange(rid.0 as int, rid.1 as int),
                    s@.subrange(start.0 as int, start.1 as int),
                    s@.subrange(end.0 as int, end.1 as int),
                ),
            ) == Some(w@),
            None => window_of(
                (
                    s@.subrange(rid.0 as int, rid.1 as int),
                    s@.subrange(start.0 as int, start.1 as int),
                    s@.subrange(end.0 as int, end.1 as int),
                ),
            ) is None,
        },
{
    let format = "%Y-%m-%d %H:%M:%S%#z";
    let st = match parse_timestamp(s.substring_char(start.0, start.1), format) {
        Some(t) => t,
        None => return None,
    };
    let en = match parse_timestamp(s.substring_char(end.0, end.1), format) {
        Some(t) => t,
        None => return None,
    };
    let rid_text = s.substring_char(rid.0, rid.1).to_string();
    Some(ReservationWindow { rid: rid_text, start: st, end: en })
}

impl ReservationConflictInfo {
    /// Reads the detail of an exclusion violation: structured where it has
    /// the database's shape and its times read, else kept as it came.
    pub fn parse(detail: &str) -> (r: ReservationConflictInfo)
        ensures
            r@ == conflict_info_of(detail@),
    {
        let parsed = parse_detail(detail);
        proof {
            if exists|a: WindowText, b: WindowText| detail_matches(detail@, a, b) {
                let (a, b) = choose|a: WindowText, b: WindowText| detail_matches(detail@, a, b);
                lemma_detail_parse_complete(detail@, a, b);
            }
            if detail_parse(detail@) is Some {
                lemma_detail_parse_sound(detail@);
            }
        }
        match parsed {
            Some(((a1, a2, a3, a4, a5, a6), (b1, b2, b3, b4, b5, b6))) => {
                let new = window_at(detail, (a1, a2), (a3, a4), (a5, a6));
                let old = window_at(detail, (b1, b2), (b3, b4), (b5, b6));
                match (new, old) {
                    (Some(n), Some(o)) => ReservationConflictInfo::Parsed(ReservationConflict { new: n, old: o }),
                    _ => ReservationConflictInfo::Unparsed(detail.to_string()),
                }
            },
            None => ReservationConflictInfo::Unparsed(detail.to_string()),
        }
    }
}

} // verus!
