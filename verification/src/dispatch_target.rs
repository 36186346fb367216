//! Dispatch targets of the form `pack[/flow[/node]]`: their grammar, the
//! parser that checks it, and the laws that tie parsing to rendering.
use vstd::prelude::*;
use vstd::string::*;
use crate::text::{
    is_ws, has_ws, seq_contains, chars_of, has_whitespace, contains_text, owned, join3,
};

verus! {

/// Where a directive sends a message: a pack, and optionally a flow and a node in it.
#[derive(Debug)]
pub struct DispatchPayload {
    pub pack: String,
    pub flow: Option<String>,
    pub node: Option<String>,
}

/// The mathematical form of a dispatch target.
pub struct TargetView {
    pub pack: Seq<char>,
    pub flow: Option<Seq<char>>,
    pub node: Option<Seq<char>>,
}

/// The characters of an optional text.
pub open spec fn opt_text(o: Option<String>) -> Option<Seq<char>> {
    match o {
        Some(s) => Some(s@),
        None => None,
    }
}

impl View for DispatchPayload {
    type V = TargetView;

    open spec fn view(&self) -> TargetView {
        TargetView { pack: self.pack@, flow: opt_text(self.flow), node: opt_text(self.node) }
    }
}

/// A character that may open a segment: an ASCII lowercase letter or digit.
pub open spec fn seg_start(c: char) -> bool {
    ('a' <= c && c <= 'z') || ('0' <= c && c <= '9')
}

/// A character that may stand in a segment.
pub open spec fn seg_char(c: char) -> bool {
    seg_start(c) || c == '.' || c == '_' || c == '-'
}

/// A valid segment: 1 to 64 characters from `[a-z0-9._-]`, opening with a
/// letter or digit. (Such a segment is ASCII, so its characters and its
/// bytes are equally many.)
pub open spec fn valid_seg(s: Seq<char>) -> bool {
    &&& s.len() > 0
    &&& seg_start(s[0])
    &&& s.len() <= 64
    &&& forall|i: int| 0 <= i < s.len() ==> seg_char(#[trigger] s[i])
}

/// `c` occurs in `s`.
pub open spec fn has_char(s: Seq<char>, c: char) -> bool {
    exists|i: int| 0 <= i < s.len() && s[i] == c
}

/// The two-character text `..`.
pub open spec fn dot_dot() -> Seq<char> {
    seq!['.', '.']
}

/// A target holding whitespace, `..`, `?` or `#`.
pub open spec fn has_forbidden(t: Seq<char>) -> bool {
    has_ws(t) || seq_contains(t, dot_dot()) || has_char(t, '?') || has_char(t, '#')
}

/// The pieces of `t` between occurrences of `sep`, as `str::split` gives them.
pub open spec fn split_on(t: Seq<char>, sep: char) -> Seq<Seq<char>>
    decreases t.len(),
{
    if t.len() == 0 {
        seq![Seq::<char>::empty()]
    } else {
        let r = split_on(t.drop_last(), sep);
        if t.last() == sep {
            r.push(Seq::<char>::empty())
        } else {
            r.update(r.len() - 1, r.last().push(t.last()))
        }
    }
}

/// Pieces joined back together with `sep` between them.
pub open spec fn join_with(parts: Seq<Seq<char>>, sep: char) -> Seq<char>
    decreases parts.len(),
{
    if parts.len() <= 1 {
        if parts.len() == 1 {
            parts[0]
        } else {
            Seq::<char>::empty()
        }
    } else {
        join_with(parts.drop_last(), sep).push(sep) + parts.last()
    }
}

/// What is wrong with a segment, if anything.
pub open spec fn segment_error(p: Seq<char>) -> Option<Seq<char>> {
    if p.len() == 0 {
        Some("target contains empty segment"@)
    } else if !valid_seg(p) {
        Some("invalid segment '"@ + p + "'"@)
    } else {
        None
    }
}

/// The error of the first bad segment, in order.
pub open spec fn first_segment_error(parts: Seq<Seq<char>>) -> Option<Seq<char>>
    decreases parts.len(),
{
    if parts.len() == 0 {
        None
    } else {
        match first_segment_error(parts.drop_last()) {
            Some(e) => Some(e),
            None => segment_error(parts.last()),
        }
    }
}

/// The target that the pieces name: the first is the pack, then the flow and node.
pub open spec fn target_of(parts: Seq<Seq<char>>) -> TargetView {
    TargetView {
        pack: parts[0],
        flow: if parts.len() > 1 {
            Some(parts[1])
        } else {
            None
        },
        node: if parts.len() > 2 {
            Some(parts[2])
        } else {
            None
        },
    }
}

/// What parsing `t` gives: the target, or the message that rejects it.
pub open spec fn spec_parse_target(t: Seq<char>) -> Result<TargetView, Seq<char>> {
    if has_forbidden(t) {
        Err("target contains forbidden characters"@)
    } else {
        let parts = split_on(t, '/');
        if parts.len() > 3 {
            Err("target must have 1 to 3 segments"@)
        } else {
            match first_segment_error(parts) {
                Some(e) => Err(e),
                None => Ok(target_of(parts)),
            }
        }
    }
}

/// The segments of a target, in order: the pack, then the flow and the node
/// where they are given.
pub open spec fn target_segments(v: TargetView) -> Seq<Seq<char>> {
    let with_flow = match v.flow {
        Some(f) => seq![v.pack, f],
        None => seq![v.pack],
    };
    match v.node {
        Some(n) => with_flow.push(n),
        None => with_flow,
    }
}

/// The text of a target: its segments joined by `/`.
pub open spec fn render_target(v: TargetView) -> Seq<char> {
    join_with(target_segments(v), '/')
}

/// Every segment of a target is valid, and a node comes only with a flow.
pub open spec fn well_formed_target(v: TargetView) -> bool {
    &&& valid_seg(v.pack)
    &&& (v.flow matches Some(f) ==> valid_seg(f))
    &&& (v.node matches Some(n) ==> valid_seg(n) && v.flow is Some)
}

/// The view of a parse result.
pub open spec fn parse_result_view(r: Result<DispatchPayload, String>) -> Result<TargetView, Seq<char>> {
    match r {
        Ok(d) => Ok(d@),
        Err(e) => Err(e@),
    }
}

/// The views of a list of strings.
pub open spec fn texts_view(v: Seq<String>) -> Seq<Seq<char>> {
    Seq::new(v.len(), |i: int| v[i]@)
}

/// A text without `sep` is one piece.
pub proof fn lemma_split_single(p: Seq<char>, sep: char)
    requires
        !has_char(p, sep),
    ensures
        split_on(p, sep) == seq![p],
    decreases p.len(),
{
    if p.len() == 0 {
        assert(p =~= Seq::<char>::empty());
    } else {
        let q = p.drop_last();
        assert(!has_char(q, sep)) by {
            if has_char(q, sep) {
                let i = choose|i: int| 0 <= i < q.len() && q[i] == sep;
                assert(p[i] == sep);
            }
        }
        assert(p.last() != sep) by {
            assert(p[p.len() - 1] == p.last());
        }
        lemma_split_single(q, sep);
        assert(q.push(p.last()) =~= p);
        assert(seq![q].update(0, q.push(p.last())) =~= seq![p]);
    }
}

/// Splitting `a`, a separator and a piece `b` without separators gives the
/// pieces of `a` followed by `b`.
pub proof fn lemma_split_append(a: Seq<char>, b: Seq<char>, sep: char)
    requires
        !has_char(b, sep),
    ensures
        split_on(a.push(sep) + b, sep) == split_on(a, sep).push(b),
    decreases b.len(),
{
    lemma_split_nonempty(a, sep);
    if b.len() == 0 {
        assert(b =~= Seq::<char>::empty());
        assert(a.push(sep) + b =~= a.push(sep));
        assert(a.push(sep).drop_last() =~= a);
        assert(split_on(a.push(sep), sep) == split_on(a, sep).push(Seq::<char>::empty()));
    } else {
        let b0 = b.drop_last();
        assert(!has_char(b0, sep)) by {
            if has_char(b0, sep) {
                let i = choose|i: int| 0 <= i < b0.len() && b0[i] == sep;
                assert(b[i] == sep);
            }
        }
        assert(b.last() != sep) by {
            assert(b[b.len() - 1] == b.last());
        }
        lemma_split_append(a, b0, sep);
        let t = a.push(sep) + b;
        assert(t.drop_last() =~= a.push(sep) + b0);
        assert(t.last() == b.last());
        let r = split_on(a, sep).push(b0);
        assert(split_on(t.drop_last(), sep) == r);
        assert(split_on(t, sep) == r.update(r.len() - 1, r.last().push(t.last())));
        assert(b0.push(b.last()) =~= b);
        assert(r.update(r.len() - 1, r.last().push(b.last())) =~= split_on(a, sep).push(b));
    }
}

/// Extending the last piece by `c` extends the joined text by `c`.
pub proof fn lemma_join_extend_last(parts: Seq<Seq<char>>, c: char, sep: char)
    requires
        parts.len() >= 1,
    ensures
        join_with(parts.update(parts.len() - 1, parts.last().push(c)), sep) == join_with(
            parts,
            sep,
        ).push(c),
{
    let u = parts.update(parts.len() - 1, parts.last().push(c));
    if parts.len() == 1 {
    } else {
        assert(u.drop_last() =~= parts.drop_last());
        assert(join_with(parts.drop_last(), sep).push(sep) + parts.last().push(c) =~= (join_with(
            parts.drop_last(),
            sep,
        ).push(sep) + parts.last()).push(c));
    }
}

/// Joining the pieces of `t` gives `t` back.
pub proof fn lemma_join_split(t: Seq<char>, sep: char)
    ensures
        join_with(split_on(t, sep), sep) == t,
    decreases t.len(),
{
    if t.len() == 0 {
        assert(t =~= Seq::<char>::empty());
    } else {
        let t0 = t.drop_last();
        lemma_join_split(t0, sep);
        lemma_split_nonempty(t0, sep);
        let r = split_on(t0, sep);
        if t.last() == sep {
            assert(r.push(Seq::<char>::empty()).drop_last() =~= r);
            assert(join_with(r, sep).push(sep) + Seq::<char>::empty() =~= t);
        } else {
            lemma_join_extend_last(r, t.last(), sep);
            assert(t0.push(t.last()) =~= t);
        }
    }
}

/// Pieces without separators are what their joined text splits into.
pub proof fn lemma_split_join(parts: Seq<Seq<char>>, sep: char)
    requires
        parts.len() >= 1,
        forall|i: int| 0 <= i < parts.len() ==> !has_char(#[trigger] parts[i], sep),
    ensures
        split_on(join_with(parts, sep), sep) == parts,
    decreases parts.len(),
{
    if parts.len() == 1 {
        lemma_split_single(parts[0], sep);
        assert(seq![parts[0]] =~= parts);
    } else {
        let pd = parts.drop_last();
        assert forall|i: int| 0 <= i < pd.len() implies !has_char(#[trigger] pd[i], sep) by {
            assert(pd[i] == parts[i]);
        }
        lemma_split_join(pd, sep);
        assert(!has_char(parts[parts.len() - 1], sep));
        lemma_split_append(join_with(pd, sep), parts.last(), sep);
        assert(pd.push(parts.last()) =~= parts);
    }
}

/// No piece has an error exactly when every piece is a valid segment.
pub proof fn lemma_no_segment_error(parts: Seq<Seq<char>>)
    ensures
        first_segment_error(parts) is None <==> forall|i: int|
            0 <= i < parts.len() ==> valid_seg(#[trigger] parts[i]),
    decreases parts.len(),
{
    if parts.len() > 0 {
        let pd = parts.drop_last();
        lemma_no_segment_error(pd);
        if first_segment_error(parts) is None {
            assert forall|i: int| 0 <= i < parts.len() implies valid_seg(#[trigger] parts[i]) by {
                if i < pd.len() {
                    assert(pd[i] == parts[i]);
                } else {
                    assert(parts[i] == parts.last());
                }
            }
        }
        if forall|i: int| 0 <= i < parts.len() ==> valid_seg(#[trigger] parts[i]) {
            assert forall|i: int| 0 <= i < pd.len() implies valid_seg(#[trigger] pd[i]) by {
                assert(pd[i] == parts[i]);
            }
            assert(valid_seg(parts[parts.len() - 1]));
        }
    }
}

/// A character of a target's text: a segment character or a `/`.
pub open spec fn target_char(c: char) -> bool {
    seg_char(c) || c == '/'
}

/// Joining valid segments with `/` gives a text of target characters only.
pub proof fn lemma_join_target_chars(parts: Seq<Seq<char>>)
    requires
        forall|i: int| 0 <= i < parts.len() ==> valid_seg(#[trigger] parts[i]),
    ensures
        forall|k: int|
            0 <= k < join_with(parts, '/').len() ==> target_char(#[trigger] join_with(parts, '/')[k]),
    decreases parts.len(),
{
    let j = join_with(parts, '/');
    if parts.len() == 1 {
        assert(valid_seg(parts[0]));
    } else if parts.len() > 1 {
        let pd = parts.drop_last();
        assert forall|i: int| 0 <= i < pd.len() implies valid_seg(#[trigger] pd[i]) by {
            assert(pd[i] == parts[i]);
        }
        lemma_join_target_chars(pd);
        let a = join_with(pd, '/');
        let b = parts.last();
        assert(valid_seg(parts[parts.len() - 1]));
        assert forall|k: int| 0 <= k < j.len() implies target_char(#[trigger] j[k]) by {
            if k < a.len() {
                assert(j[k] == a[k]);
            } else if k == a.len() {
                assert(j[k] == '/');
            } else {
                assert(j[k] == b[k - a.len() - 1]);
            }
        }
    }
}

/// Parsing and rendering agree, one way: a target that parses renders back
/// to the text it came from, and every segment of it is valid.
pub proof fn law_parsed_target_renders_back(t: Seq<char>)
    ensures
        spec_parse_target(t) matches Ok(v) ==> render_target(v) == t && well_formed_target(v),
{
    if spec_parse_target(t) is Ok {
        let parts = split_on(t, '/');
        lemma_split_nonempty(t, '/');
        lemma_no_segment_error(parts);
        lemma_join_split(t, '/');
        let v = target_of(parts);
        assert(target_segments(v) =~= parts);
        assert(valid_seg(parts[0]));
        if parts.len() > 1 {
            assert(valid_seg(parts[1]));
        }
        if parts.len() > 2 {
            assert(valid_seg(parts[2]));
        }
    }
}

/// Parsing and rendering agree, the other way: a well-formed target whose
/// text holds no `..` parses back to itself.
pub proof fn law_rendered_target_parses_back(v: TargetView)
    requires
        well_formed_target(v),
        !seq_contains(render_target(v), dot_dot()),
    ensures
        spec_parse_target(render_target(v)) == Ok::<TargetView, Seq<char>>(v),
{
    let segs = target_segments(v);
    let t = render_target(v);
    assert forall|i: int| 0 <= i < segs.len() implies valid_seg(#[trigger] segs[i]) by {}
    assert forall|i: int| 0 <= i < segs.len() implies !has_char(#[trigger] segs[i], '/') by {
        if has_char(segs[i], '/') {
            let k = choose|k: int| 0 <= k < segs[i].len() && segs[i][k] == '/';
            assert(seg_char(segs[i][k]));
        }
    }
    lemma_split_join(segs, '/');
    lemma_join_target_chars(segs);
    assert(!has_ws(t)) by {
        if has_ws(t) {
            let k = choose|k: int| 0 <= k < t.len() && is_ws(#[trigger] t[k]);
            assert(target_char(t[k]));
        }
    }
    assert(!has_char(t, '?')) by {
        if has_char(t, '?') {
            let k = choose|k: int| 0 <= k < t.len() && t[k] == '?';
            assert(target_char(t[k]));
        }
    }
    assert(!has_char(t, '#')) by {
        if has_char(t, '#') {
            let k = choose|k: int| 0 <= k < t.len() && t[k] == '#';
            assert(target_char(t[k]));
        }
    }
    lemma_no_segment_error(segs);
    assert(target_of(segs) == v);
}

pub proof fn lemma_split_nonempty(t: Seq<char>, sep: char)
    ensures
        split_on(t, sep).len() >= 1,
    decreases t.len(),
{
    if t.len() > 0 {
        lemma_split_nonempty(t.drop_last(), sep);
    }
}

/// Whether `c` occurs in `s`.
fn contains_char(s: &Vec<char>, c: char) -> (r: bool)
    ensures
        r == has_char(s@, c),
{
    let mut i: usize = 0;
    while i < s.len()
        invariant
            i <= s@.len(),
            forall|j: int| 0 <= j < i ==> s@[j] != c,
        decreases s.len() - i,
    {
        if s[i] == c {
            return true;
        }
        i = i + 1;
    }
    false
}

/// Whether `segment` is a valid segment of a dispatch target.
pub fn valid_segment(segment: &str) -> (b: bool)
    ensures
        b == valid_seg(segment@),
{
    let cs = chars_of(segment);
    if cs.len() == 0 {
        return false;
    }
    let first = cs[0];
    if !(('a' <= first && first <= 'z') || ('0' <= first && first <= '9')) {
        return false;
    }
    if cs.len() > 64 {
        return false;
    }
    let mut i: usize = 1;
    while i < cs.len()
        invariant
            1 <= i <= cs@.len(),
            cs@ == segment@,
            seg_start(cs@[0]),
            forall|j: int| 0 <= j < i ==> seg_char(#[trigger] cs@[j]),
        decreases cs.len() - i,
    {
        let ch = cs[i];
        if !(('a' <= ch && ch <= 'z') || ('0' <= ch && ch <= '9') || ch == '.' || ch == '_' || ch
            == '-') {
            return false;
        }
        i = i + 1;
    }
    true
}

/// Splits `target` at every `/`.
fn split_slash(target: &str, cs: &Vec<char>) -> (parts: Vec<String>)
    requires
        cs@ == target@,
    ensures
        texts_view(parts@) == split_on(target@, '/'),
{
    let n = cs.len();
    let mut parts: Vec<String> = Vec::new();
    let mut start: usize = 0;
    let mut i: usize = 0;
    proof {
        assert(cs@.take(0) =~= Seq::<char>::empty());
        assert(cs@.subrange(0, 0) =~= Seq::<char>::empty());
        assert(texts_view(parts@).push(cs@.subrange(0, 0)) =~= seq![Seq::<char>::empty()]);
    }
    while i < n
        invariant
            n == cs@.len(),
            cs@ == target@,
            start <= i <= n,
            split_on(cs@.take(i as int), '/') == texts_view(parts@).push(
                cs@.subrange(start as int, i as int),
            ),
        decreases n - i,
    {
        let ghost before = texts_view(parts@);
        assert(cs@.take(i + 1).drop_last() =~= cs@.take(i as int));
        let ghost old_start = start;
        if cs[i] == '/' {
            let piece = owned(target.substring_char(start, i));
            assert(piece@ == cs@.subrange(start as int, i as int));
            parts.push(piece);
            start = i + 1;
            assert(texts_view(parts@) =~= before.push(cs@.subrange(old_start as int, i as int)));
            assert(cs@.subrange(start as int, (i + 1) as int) =~= Seq::<char>::empty());
            assert(split_on(cs@.take(i + 1), '/') =~= texts_view(parts@).push(
                cs@.subrange(start as int, (i + 1) as int),
            ));
        } else {
            assert(cs@.subrange(start as int, (i + 1) as int) =~= cs@.subrange(
                start as int,
                i as int,
            ).push(cs@[i as int]));
            assert(split_on(cs@.take(i + 1), '/') =~= texts_view(parts@).push(
                cs@.subrange(start as int, (i + 1) as int),
            ));
        }
        i = i + 1;
    }
    let ghost before = texts_view(parts@);
    let last = owned(target.substring_char(start, n));
    parts.push(last);
    assert(cs@.take(n as int) =~= cs@);
    assert(texts_view(parts@) =~= before.push(cs@.subrange(start as int, n as int)));
    parts
}

/// Parses a dispatch target `pack[/flow[/node]]`.
pub fn parse_dispatch_target(target: &str) -> (r: Result<DispatchPayload, String>)
    ensures
        parse_result_view(r) == spec_parse_target(target@),
{
    let cs = chars_of(target);
    let ws = has_whitespace(&cs);
    let dd = contains_text(target, "..");
    let q = contains_char(&cs, '?');
    let h = contains_char(&cs, '#');
    proof {
        reveal_strlit("..");
        assert(".."@ =~= dot_dot());
    }
    if ws || dd || q || h {
        return Err(owned("target contains forbidden characters"));
    }
    assert(!has_forbidden(target@));
    let mut parts = split_slash(target, &cs);
    if parts.len() > 3 {
        return Err(owned("target must have 1 to 3 segments"));
    }
    let ghost all = texts_view(parts@);
    let mut k: usize = 0;
    while k < parts.len()
        invariant
            k <= parts@.len(),
            parts@.len() <= 3,
            texts_view(parts@) == all,
            all == split_on(target@, '/'),
            !has_forbidden(target@),
            first_segment_error(all.take(k as int)) is None,
        decreases parts.len() - k,
    {
        assert(all.take(k + 1).drop_last() =~= all.take(k as int));
        let part = parts[k].as_str();
        proof {
            assert(all[k as int] == part@);
            assert(all.take(k + 1).last() == part@);
            assert(spec_parse_target(target@) == match first_segment_error(all) {
                Some(e) => Err(e),
                None => Ok(target_of(all)),
            });
        }
        if part.is_empty() {
            proof {
                lemma_first_error_prefix(all, k as int + 1);
            }
            return Err(owned("target contains empty segment"));
        }
        if !valid_segment(part) {
            proof {
                lemma_first_error_prefix(all, k as int + 1);
            }
            return Err(join3("invalid segment '", part, "'"));
        }
        k = k + 1;
    }
    proof {
        lemma_split_nonempty(target@, '/');
        assert(all.take(all.len() as int) =~= all);
    }
    let ghost whole = parts@;
    let node = if parts.len() > 2 {
        Some(parts.remove(2))
    } else {
        None
    };
    let flow = if parts.len() > 1 {
        Some(parts.remove(1))
    } else {
        None
    };
    let pack = parts.remove(0);
    let d = DispatchPayload { pack, flow, node };
    assert(d@ == target_of(all));
    Ok(d)
}

/// An error found among the first `j` pieces is the first error of all of them.
pub proof fn lemma_first_error_prefix(parts: Seq<Seq<char>>, j: int)
    requires
        0 <= j <= parts.len(),
        first_segment_error(parts.take(j)) is Some,
    ensures
        first_segment_error(parts) == first_segment_error(parts.take(j)),
    decreases parts.len(),
{
    if j == parts.len() {
        assert(parts.take(j) =~= parts);
    } else {
        assert(parts.drop_last().take(j) =~= parts.take(j));
        lemma_first_error_prefix(parts.drop_last(), j);
    }
}

} // verus!
