//! The grammar of a class token: variants, then a utility with its value,
//! its modifier and its flags.

use vstd::prelude::*;
use vstd::string::*;
use crate::text::{chars_of, find_char, join3, position_from, slice_text};

verus! {

/// A value or modifier: a name to look up in the theme, or a literal from a
/// bracketed segment.
#[derive(Debug, PartialEq)]
pub enum MaybeArbitrary {
    Named(String),
    Arbitrary(String),
}

/// The mathematical content of a [`MaybeArbitrary`].
pub ghost enum MaybeArbitraryView {
    Named(Seq<char>),
    Arbitrary(Seq<char>),
}

impl View for MaybeArbitrary {
    type V = MaybeArbitraryView;

    open spec fn view(&self) -> MaybeArbitraryView {
        match self {
            MaybeArbitrary::Named(s) => MaybeArbitraryView::Named(s@),
            MaybeArbitrary::Arbitrary(s) => MaybeArbitraryView::Arbitrary(s@),
        }
    }
}

impl Clone for MaybeArbitrary {
    fn clone(&self) -> (c: MaybeArbitrary)
        ensures
            c@ == self@,
    {
        match self {
            MaybeArbitrary::Named(s) => MaybeArbitrary::Named(s.clone()),
            MaybeArbitrary::Arbitrary(s) => MaybeArbitrary::Arbitrary(s.clone()),
        }
    }
}

/// The content of an optional value or modifier.
pub open spec fn opt_view(v: Option<MaybeArbitrary>) -> Option<MaybeArbitraryView> {
    match v {
        Some(v) => Some(v@),
        None => None,
    }
}

/// A utility as it stands in a token, before it is resolved.
#[derive(Debug, PartialEq)]
pub struct UtilityCandidate {
    pub key: String,
    pub value: Option<MaybeArbitrary>,
    pub modifier: Option<MaybeArbitrary>,
    /// Fully arbitrary: `[color:red]`.
    pub arbitrary: bool,
    pub important: bool,
    pub negative: bool,
}

/// The mathematical content of a [`UtilityCandidate`].
pub ghost struct UtilityCandidateView {
    pub key: Seq<char>,
    pub value: Option<MaybeArbitraryView>,
    pub modifier: Option<MaybeArbitraryView>,
    pub arbitrary: bool,
    pub important: bool,
    pub negative: bool,
}

impl View for UtilityCandidate {
    type V = UtilityCandidateView;

    open spec fn view(&self) -> UtilityCandidateView {
        UtilityCandidateView {
            key: self.key@,
            value: opt_view(self.value),
            modifier: opt_view(self.modifier),
            arbitrary: self.arbitrary,
            important: self.important,
            negative: self.negative,
        }
    }
}

impl UtilityCandidateView {
    /// The candidate of a bare key.
    pub open spec fn with_key(key: Seq<char>) -> UtilityCandidateView {
        UtilityCandidateView {
            key,
            value: None,
            modifier: None,
            arbitrary: false,
            important: false,
            negative: false,
        }
    }

    /// `value/modifier`, where both are names.
    pub open spec fn fraction(self) -> Option<Seq<char>> {
        match (self.value, self.modifier) {
            (Some(MaybeArbitraryView::Named(v)), Some(MaybeArbitraryView::Named(m))) => Some(
                v + seq!['/'] + m,
            ),
            _ => None,
        }
    }
}

impl UtilityCandidate {
    /// The candidate of a bare key: no value, no modifier, no flag.
    pub fn with_key(key: &str) -> (c: UtilityCandidate)
        ensures
            c@ == UtilityCandidateView::with_key(key@),
    {
        UtilityCandidate {
            key: key.to_owned(),
            value: None,
            modifier: None,
            arbitrary: false,
            important: false,
            negative: false,
        }
    }

    /// The fraction `value/modifier`, only if value and modifier are both
    /// names.
    pub fn take_fraction(&self) -> (r: Option<String>)
        ensures
            match r {
                Some(s) => self@.fraction() == Some(s@),
                None => self@.fraction() is None,
            },
    {
        match (&self.value, &self.modifier) {
            (Some(MaybeArbitrary::Named(v)), Some(MaybeArbitrary::Named(m))) => {
                proof {
                    reveal_strlit("/");
                    assert("/"@ =~= seq!['/']);
                }
                Some(join3(v.as_str(), "/", m.as_str()))
            },
            _ => None,
        }
    }
}

/// The position of the `]` that closes a bracket, scanning from `i` at
/// nesting `depth`; the length of `s` if it is never closed.
pub open spec fn closing(s: Seq<char>, i: int, depth: nat) -> int
    decreases s.len() - i,
{
    if i < 0 || i >= s.len() {
        s.len() as int
    } else if s[i] == ']' {
        if depth <= 1 {
            i
        } else {
            closing(s, i + 1, (depth - 1) as nat)
        }
    } else if s[i] == '[' {
        closing(s, i + 1, depth + 1)
    } else {
        closing(s, i + 1, depth)
    }
}

/// `closing` points at or after `i`, at a `]` if inside `s`.
pub proof fn lemma_closing(s: Seq<char>, i: int, depth: nat)
    requires
        0 <= i <= s.len(),
    ensures
        i <= closing(s, i, depth) <= s.len(),
        closing(s, i, depth) < s.len() ==> s[closing(s, i, depth)] == ']',
    decreases s.len() - i,
{
    if i < s.len() {
        if s[i] == ']' {
            if depth > 1 {
                lemma_closing(s, i + 1, (depth - 1) as nat);
            }
        } else if s[i] == '[' {
            lemma_closing(s, i + 1, depth + 1);
        } else {
            lemma_closing(s, i + 1, depth);
        }
    }
}

/// The position of the `]` that closes the bracket opened just before
/// `from`.
pub fn find_closing(v: &Vec<char>, from: usize) -> (p: usize)
    requires
        from <= v@.len(),
    ensures
        p == closing(v@, from as int, 1),
        from <= p <= v@.len(),
        p < v@.len() ==> v@[p as int] == ']',
{
    let mut i: usize = from;
    // the brackets that are open besides the first
    let mut inner: usize = 0;
    proof {
        lemma_closing(v@, from as int, 1);
    }
    while i < v.len()
        invariant
            from <= i <= v@.len(),
            inner <= i - from,
            closing(v@, from as int, 1) == closing(v@, i as int, (inner + 1) as nat),
        decreases v@.len() - i,
    {
        let c = v[i];
        if c == ']' {
            if inner == 0 {
                return i;
            }
            inner -= 1;
        } else if c == '[' {
            inner += 1;
        }
        i += 1;
    }
    i
}

/// The position of the first `:` outside brackets at or after `i`, where
/// `depth` brackets are open; the length of `s` if there is none.
pub open spec fn next_colon(s: Seq<char>, i: int, depth: nat) -> int
    decreases s.len() - i,
{
    if i < 0 || i >= s.len() {
        s.len() as int
    } else if s[i] == ':' && depth == 0 {
        i
    } else if s[i] == '[' {
        next_colon(s, i + 1, depth + 1)
    } else if s[i] == ']' && depth > 0 {
        next_colon(s, i + 1, (depth - 1) as nat)
    } else {
        next_colon(s, i + 1, depth)
    }
}

/// `next_colon` points at or after `i`, at a `:` if inside `s`.
pub proof fn lemma_next_colon(s: Seq<char>, i: int, depth: nat)
    requires
        0 <= i <= s.len(),
    ensures
        i <= next_colon(s, i, depth) <= s.len(),
        next_colon(s, i, depth) < s.len() ==> s[next_colon(s, i, depth)] == ':',
    decreases s.len() - i,
{
    if i < s.len() {
        if s[i] == ':' && depth == 0 {
        } else if s[i] == '[' {
            lemma_next_colon(s, i + 1, depth + 1);
        } else if s[i] == ']' && depth > 0 {
            lemma_next_colon(s, i + 1, (depth - 1) as nat);
        } else {
            lemma_next_colon(s, i + 1, depth);
        }
    }
}

/// The position of the first `:` outside brackets at or after `from`.
pub fn find_colon(v: &Vec<char>, from: usize) -> (p: usize)
    requires
        from <= v@.len(),
    ensures
        p == next_colon(v@, from as int, 0),
        from <= p <= v@.len(),
        p < v@.len() ==> v@[p as int] == ':',
{
    let mut i: usize = from;
    let mut depth: usize = 0;
    proof {
        lemma_next_colon(v@, from as int, 0);
    }
    while i < v.len()
        invariant
            from <= i <= v@.len(),
            depth <= i - from,
            next_colon(v@, from as int, 0) == next_colon(v@, i as int, depth as nat),
        decreases v@.len() - i,
    {
        let c = v[i];
        if c == ':' && depth == 0 {
            return i;
        } else if c == '[' {
            depth += 1;
        } else if c == ']' && depth > 0 {
            depth -= 1;
        }
        i += 1;
    }
    i
}

/// The segments of a token between its `:` outside brackets, from `from`
/// on: the variants, and last the utility.
pub open spec fn segments_from(s: Seq<char>, from: int) -> Seq<Seq<char>>
    decreases s.len() - from,
{
    if from < 0 || from > s.len() {
        Seq::<Seq<char>>::empty()
    } else {
        let c = next_colon(s, from, 0);
        if from <= c < s.len() {
            seq![s.subrange(from, c)] + segments_from(s, c + 1)
        } else {
            seq![s.subrange(from, s.len() as int)]
        }
    }
}

/// The segments of a token: the variants, and last the utility.
pub open spec fn segments(s: Seq<char>) -> Seq<Seq<char>> {
    segments_from(s, 0)
}

/// The texts of the vectors, in order.
pub open spec fn texts(v: Seq<Vec<char>>) -> Seq<Seq<char>> {
    Seq::new(v.len(), |i: int| v[i]@)
}

/// The characters of `v` from `from` up to `to`.
pub fn sub_chars(v: &Vec<char>, from: usize, to: usize) -> (r: Vec<char>)
    requires
        from <= to <= v@.len(),
    ensures
        r@ == v@.subrange(from as int, to as int),
{
    let mut r: Vec<char> = Vec::new();
    let mut i: usize = from;
    while i < to
        invariant
            from <= i <= to <= v@.len(),
            r@ == v@.subrange(from as int, i as int),
        decreases to - i,
    {
        r.push(v[i]);
        assert(r@ =~= v@.subrange(from as int, i + 1));
        i += 1;
    }
    r
}

/// Splits a token at its `:` outside brackets.
pub fn split_segments(v: &Vec<char>) -> (parts: Vec<Vec<char>>)
    ensures
        texts(parts@) == segments(v@),
        parts@.len() >= 1,
{
    let mut parts: Vec<Vec<char>> = Vec::new();
    let mut from: usize = 0;
    loop
        invariant
            from <= v@.len(),
            texts(parts@) + segments_from(v@, from as int) == segments(v@),
        decreases v@.len() - from,
    {
        let c = find_colon(v, from);
        let ghost before = texts(parts@);
        if c < v.len() {
            parts.push(sub_chars(v, from, c));
            proof {
                assert(texts(parts@) =~= before + seq![v@.subrange(from as int, c as int)]);
                assert(texts(parts@) + segments_from(v@, c + 1) =~= before + segments_from(
                    v@,
                    from as int,
                ));
            }
            from = c + 1;
        } else {
            parts.push(sub_chars(v, from, v.len()));
            proof {
                assert(texts(parts@) =~= before + seq![v@.subrange(from as int, v@.len() as int)]);
                assert(texts(parts@) =~= before + segments_from(v@, from as int));
            }
            return parts;
        }
    }
}

/// A utility segment without its flags.
pub ghost struct Stripped {
    pub important: bool,
    pub negative: bool,
    pub body: Seq<char>,
}

/// Takes the flags off a utility segment: a `!` in front or at the end
/// marks it important, a `-` in front of the key marks it negative.
pub open spec fn strip_flags(u: Seq<char>) -> Stripped {
    let lead = u.len() > 0 && u[0] == '!';
    let a = if lead { u.drop_first() } else { u };
    let trail = a.len() > 0 && a.last() == '!';
    let b = if trail { a.drop_last() } else { a };
    let negative = b.len() > 0 && b[0] == '-';
    let c = if negative { b.drop_first() } else { b };
    Stripped { important: lead || trail, negative, body: c }
}

/// The flags of a utility segment, and its body.
pub fn take_flags(u: &Vec<char>) -> (r: (bool, bool, Vec<char>))
    ensures
        (Stripped { important: r.0, negative: r.1, body: r.2@ }) == strip_flags(u@),
{
    let mut from: usize = 0;
    let mut to: usize = u.len();
    let lead = to > 0 && u[0] == '!';
    if lead {
        from = 1;
    }
    let trail = to > from && u[to - 1] == '!';
    if trail {
        to = to - 1;
    }
    let negative = to > from && u[from] == '-';
    if negative {
        from = from + 1;
    }
    let body = sub_chars(u, from, to);
    proof {
        let a = if lead { u@.drop_first() } else { u@ };
        let b = if trail { a.drop_last() } else { a };
        let c = if negative { b.drop_first() } else { b };
        assert(body@ =~= c);
    }
    (lead || trail, negative, body)
}

/// A modifier: a bracketed literal, or a name.
pub open spec fn parse_modifier(m: Seq<char>) -> Option<MaybeArbitraryView> {
    if m.len() == 0 {
        None
    } else if m[0] == '[' {
        if closing(m, 1, 1) == m.len() - 1 {
            Some(MaybeArbitraryView::Arbitrary(m.subrange(1, m.len() - 1)))
        } else {
            None
        }
    } else {
        Some(MaybeArbitraryView::Named(m))
    }
}

/// Reads a modifier.
pub fn read_modifier(m: &Vec<char>) -> (r: Option<MaybeArbitrary>)
    ensures
        opt_view(r) == parse_modifier(m@),
{
    if m.len() == 0 {
        None
    } else if m[0] == '[' {
        if find_closing(m, 1) == m.len() - 1 {
            Some(MaybeArbitrary::Arbitrary(slice_text(m, 1, m.len() - 1)))
        } else {
            None
        }
    } else {
        let s = slice_text(m, 0, m.len());
        assert(m@.subrange(0, m@.len() as int) =~= m@);
        Some(MaybeArbitrary::Named(s))
    }
}

/// What follows the key of a utility.
pub ghost struct TailView {
    pub value: Option<MaybeArbitraryView>,
    pub modifier: Option<MaybeArbitraryView>,
}

/// What follows the key of a utility.
pub struct Tail {
    pub value: Option<MaybeArbitrary>,
    pub modifier: Option<MaybeArbitrary>,
}

impl View for Tail {
    type V = TailView;

    open spec fn view(&self) -> TailView {
        TailView { value: opt_view(self.value), modifier: opt_view(self.modifier) }
    }
}

/// The content of an optional tail.
pub open spec fn opt_tail_view(t: Option<Tail>) -> Option<TailView> {
    match t {
        Some(t) => Some(t@),
        None => None,
    }
}

/// A value with the modifier that may follow it after a `/`.
pub open spec fn with_modifier(value: MaybeArbitraryView, after: Seq<char>) -> Option<TailView> {
    if after.len() == 0 {
        Some(TailView { value: Some(value), modifier: None })
    } else if after[0] == '/' {
        match parse_modifier(after.drop_first()) {
            Some(m) => Some(TailView { value: Some(value), modifier: Some(m) }),
            None => None,
        }
    } else {
        None
    }
}

/// The grammar of what follows a key: nothing; or `-`, then a name or a
/// bracketed block, then optionally `/` and a modifier.
pub open spec fn parse_tail(rest: Seq<char>) -> Option<TailView> {
    if rest.len() == 0 {
        Some(TailView { value: None, modifier: None })
    } else if rest[0] != '-' || rest.len() == 1 {
        None
    } else {
        let body = rest.drop_first();
        if body[0] == '[' {
            let c = closing(body, 1, 1);
            if c >= body.len() {
                None
            } else {
                with_modifier(
                    MaybeArbitraryView::Arbitrary(body.subrange(1, c)),
                    body.subrange(c + 1, body.len() as int),
                )
            }
        } else {
            let p = position_from(body, '/', 0);
            if p == 0 {
                None
            } else {
                with_modifier(
                    MaybeArbitraryView::Named(body.subrange(0, p)),
                    body.subrange(p, body.len() as int),
                )
            }
        }
    }
}

/// Completes a value with the modifier that may follow it.
fn read_with_modifier(value: MaybeArbitrary, after: &Vec<char>) -> (r: Option<Tail>)
    ensures
        opt_tail_view(r) == with_modifier(value@, after@),
{
    if after.len() == 0 {
        Some(Tail { value: Some(value), modifier: None })
    } else if after[0] == '/' {
        let m = sub_chars(after, 1, after.len());
        assert(m@ =~= after@.drop_first());
        match read_modifier(&m) {
            Some(m) => Some(Tail { value: Some(value), modifier: Some(m) }),
            None => None,
        }
    } else {
        None
    }
}

/// Reads what follows the key of a utility.
pub fn read_tail(rest: &Vec<char>) -> (r: Option<Tail>)
    ensures
        opt_tail_view(r) == parse_tail(rest@),
{
    if rest.len() == 0 {
        Some(Tail { value: None, modifier: None })
    } else if rest[0] != '-' || rest.len() == 1 {
        None
    } else {
        let body = sub_chars(rest, 1, rest.len());
        assert(body@ =~= rest@.drop_first());
        if body[0] == '[' {
            let c = find_closing(&body, 1);
            if c >= body.len() {
                None
            } else {
                let value = MaybeArbitrary::Arbitrary(slice_text(&body, 1, c));
                let after = sub_chars(&body, c + 1, body.len());
                read_with_modifier(value, &after)
            }
        } else {
            let p = find_char(&body, '/', 0);
            if p == 0 {
                None
            } else {
                let value = MaybeArbitrary::Named(slice_text(&body, 0, p));
                let after = sub_chars(&body, p, body.len());
                read_with_modifier(value, &after)
            }
        }
    }
}

/// `key` stands at the start of `u` and ends there or before a `-`.
pub open spec fn is_key_prefix(u: Seq<char>, key: Seq<char>) -> bool {
    &&& 0 < key.len() <= u.len()
    &&& u.subrange(0, key.len() as int) == key
    &&& (u.len() == key.len() || u[key.len() as int] == '-')
}

/// Whether `key` stands at the start of `u` and ends there or before a `-`.
pub fn key_prefix(u: &Vec<char>, key: &Vec<char>) -> (r: bool)
    ensures
        r == is_key_prefix(u@, key@),
{
    if key.len() == 0 || key.len() > u.len() {
        return false;
    }
    if !crate::text::matches_at(u, key, 0) {
        return false;
    }
    u.len() == key.len() || u[key.len()] == '-'
}

/// A utility that is written out in full: `[property:value]`.
pub open spec fn parse_arbitrary_utility(body: Seq<char>) -> Option<(Seq<char>, Seq<char>)> {
    if body.len() >= 2 && body[0] == '[' && closing(body, 1, 1) == body.len() - 1 {
        let inner = body.subrange(1, body.len() - 1);
        let p = position_from(inner, ':', 0);
        if 0 < p && p + 1 < inner.len() {
            Some((inner.subrange(0, p), inner.subrange(p + 1, inner.len() as int)))
        } else {
            None
        }
    } else {
        None
    }
}

/// Reads a utility that is written out in full.
pub fn read_arbitrary_utility(body: &Vec<char>) -> (r: Option<(String, String)>)
    ensures
        match r {
            Some((k, v)) => parse_arbitrary_utility(body@) == Some((k@, v@)),
            None => parse_arbitrary_utility(body@) is None,
        },
{
    if body.len() >= 2 && body[0] == '[' && find_closing(body, 1) == body.len() - 1 {
        let inner = sub_chars(body, 1, body.len() - 1);
        let p = find_char(&inner, ':', 0);
        if 0 < p && p < inner.len() - 1 {
            Some((slice_text(&inner, 0, p), slice_text(&inner, p + 1, inner.len())))
        } else {
            None
        }
    } else {
        None
    }
}

/// The keys of the entries of a registry, in order.
pub open spec fn entry_keys<T>(entries: Seq<(String, T)>) -> Seq<Seq<char>> {
    Seq::new(entries.len(), |i: int| entries[i].0@)
}

/// The position of the longest key that stands at the start of `u` and
/// ends there or before a `-`; of several entries with that key, the
/// first.
pub open spec fn best_key(u: Seq<char>, keys: Seq<Seq<char>>) -> Option<int>
    decreases keys.len(),
{
    if keys.len() == 0 {
        None
    } else {
        let front = best_key(u, keys.drop_last());
        let k = keys.last();
        if is_key_prefix(u, k) && (front is None || keys[front.unwrap()].len() < k.len()) {
            Some(keys.len() - 1)
        } else {
            front
        }
    }
}

/// What `best_key` finds: a key prefix that no other key prefix is longer
/// than; and nothing only if no key is a key prefix.
pub proof fn lemma_best_key(u: Seq<char>, keys: Seq<Seq<char>>)
    ensures
        match best_key(u, keys) {
            Some(i) => {
                &&& 0 <= i < keys.len()
                &&& is_key_prefix(u, keys[i])
                &&& forall|j: int|
                    0 <= j < keys.len() && is_key_prefix(u, #[trigger] keys[j]) ==> keys[j].len()
                        <= keys[i].len()
            },
            None => forall|j: int| 0 <= j < keys.len() ==> !is_key_prefix(u, #[trigger] keys[j]),
        },
    decreases keys.len(),
{
    if keys.len() > 0 {
        let front = keys.drop_last();
        lemma_best_key(u, front);
        assert forall|j: int| 0 <= j < front.len() implies front[j] == keys[j] by {}
        match best_key(u, keys) {
            Some(i) => {
                assert forall|j: int|
                    0 <= j < keys.len() && is_key_prefix(u, #[trigger] keys[j]) implies keys[j].len()
                    <= keys[i].len() by {
                    if j < front.len() {
                        assert(is_key_prefix(u, front[j]));
                    }
                }
            },
            None => {
                assert forall|j: int| 0 <= j < keys.len() implies !is_key_prefix(
                    u,
                    #[trigger] keys[j],
                ) by {
                    if j < front.len() {
                        assert(!is_key_prefix(u, front[j]));
                    }
                }
            },
        }
    }
}

/// Finds the entry with the longest key that stands at the start of `u`.
pub fn match_key<T>(u: &Vec<char>, entries: &Vec<(String, T)>) -> (r: Option<usize>)
    ensures
        match r {
            Some(i) => best_key(u@, entry_keys(entries@)) == Some(i as int) && i < entries@.len()
                && is_key_prefix(u@, entries@[i as int].0@),
            None => best_key(u@, entry_keys(entries@)) is None,
        },
{
    let ghost keys = entry_keys(entries@);
    let mut best: Option<usize> = None;
    let mut best_len: usize = 0;
    let mut i: usize = 0;
    proof {
        assert(keys.take(0) =~= Seq::<Seq<char>>::empty());
    }
    while i < entries.len()
        invariant
            i <= entries@.len(),
            keys == entry_keys(entries@),
            match best {
                Some(b) => best_key(u@, keys.take(i as int)) == Some(b as int) && b < i && best_len
                    == keys[b as int].len(),
                None => best_key(u@, keys.take(i as int)) is None,
            },
        decreases entries@.len() - i,
    {
        proof {
            assert(keys.take(i + 1).drop_last() =~= keys.take(i as int));
            assert(keys.take(i + 1).last() == entries@[i as int].0@);
            if best is Some {
                assert(keys.take(i + 1)[best.unwrap() as int] == keys[best.unwrap() as int]);
            }
        }
        let k = chars_of(entries[i].0.as_str());
        if key_prefix(u, &k) && (best.is_none() || best_len < k.len()) {
            best = Some(i);
            best_len = k.len();
        }
        i += 1;
    }
    proof {
        assert(keys.take(i as int) =~= keys);
        lemma_best_key(u@, keys);
    }
    best
}

} // verus!
