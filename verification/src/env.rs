//! Merge a GitHub App's credentials into the text of an environment file.
//!
//! The file is a sequence of `KEY=VALUE` lines. A merge keeps every line whose
//! key is not managed by this tool, in its original order, and then writes one
//! line per managed key, in a fixed order, with the values from the
//! credentials.

use vstd::prelude::*;

use crate::app::{App, AppView};
use crate::text::{
    chars_string, escape_default_chars, lemma_escape_plain, lemma_u64_chars_plain, spec_escape,
    spec_u64_chars, str_chars, push_chars, push_str_chars, sub_chars, u64_chars,
};

verus! {

/// The index of the first `'\n'` in `s`, or `s.len()` if there is none.
pub open spec fn spec_line_end(s: Seq<char>) -> nat
    decreases s.len(),
{
    if s.len() == 0 {
        0
    } else if s[0] == '\n' {
        0
    } else {
        (1 + spec_line_end(s.drop_first())) as nat
    }
}

/// `spec_line_end` finds the first `'\n'`, and never runs past the end.
pub proof fn lemma_line_end(s: Seq<char>)
    ensures
        spec_line_end(s) <= s.len(),
        spec_line_end(s) < s.len() ==> s[spec_line_end(s) as int] == '\n',
        forall|k: int| 0 <= k < spec_line_end(s) ==> s[k] != '\n',
    decreases s.len(),
{
    if s.len() == 0 {
    } else if s[0] == '\n' {
    } else {
        lemma_line_end(s.drop_first());
        assert forall|k: int| 0 <= k < spec_line_end(s) implies s[k] != '\n' by {
            if k > 0 {
                assert(s[k] == s.drop_first()[k - 1]);
            }
        }
    }
}

/// The position of the first `'\n'` is the only position with nothing but
/// other characters before it and a `'\n'` (or the end) at it.
pub proof fn lemma_line_end_unique(s: Seq<char>, j: int)
    requires
        0 <= j <= s.len(),
        forall|k: int| 0 <= k < j ==> s[k] != '\n',
        j < s.len() ==> s[j] == '\n',
    ensures
        spec_line_end(s) == j,
{
    lemma_line_end(s);
}

/// A line with a trailing carriage return loses it; any other stays as it is.
pub open spec fn spec_strip_cr(l: Seq<char>) -> Seq<char> {
    if l.len() > 0 && l[l.len() - 1] == '\r' {
        l.drop_last()
    } else {
        l
    }
}

/// The lines of `s`: split at `'\n'`, a carriage return directly before the
/// split is dropped, and a final line needs no terminator. The empty text has
/// no lines.
pub open spec fn spec_lines(s: Seq<char>) -> Seq<Seq<char>>
    decreases s.len(),
    via spec_lines_decreases
{
    if s.len() == 0 {
        Seq::empty()
    } else {
        let e = spec_line_end(s) as int;
        if e == s.len() {
            seq![s]
        } else {
            seq![spec_strip_cr(s.subrange(0, e))] + spec_lines(s.subrange(e + 1, s.len() as int))
        }
    }
}

#[via_fn]
proof fn spec_lines_decreases(s: Seq<char>) {
    lemma_line_end(s);
}

/// `c` occurs nowhere in `l`.
pub open spec fn spec_without_char(l: Seq<char>, c: char) -> bool {
    forall|k: int| 0 <= k < l.len() ==> l[k] != c
}

/// A line that splitting and re-joining keeps as it is: it holds no newline
/// and does not end in a carriage return.
pub open spec fn spec_line_exact(l: Seq<char>) -> bool {
    spec_without_char(l, '\n') && (l.len() == 0 || l[l.len() - 1] != '\r')
}

/// No line produced by `spec_lines` holds a newline.
pub proof fn lemma_lines_without_newline(s: Seq<char>)
    ensures
        forall|i: int|
            0 <= i < spec_lines(s).len() ==> spec_without_char(#[trigger] spec_lines(s)[i], '\n'),
    decreases s.len(),
{
    if s.len() == 0 {
    } else {
        lemma_line_end(s);
        let e = spec_line_end(s) as int;
        if e == s.len() {
            assert(spec_without_char(spec_lines(s)[0], '\n'));
        } else {
            lemma_lines_without_newline(s.subrange(e + 1, s.len() as int));
            let head = spec_strip_cr(s.subrange(0, e));
            assert(spec_without_char(head, '\n'));
            assert forall|i: int|
                0 <= i < spec_lines(s).len() implies spec_without_char(
                #[trigger] spec_lines(s)[i],
                '\n',
            ) by {
                if i > 0 {
                    assert(spec_lines(s)[i] == spec_lines(s.subrange(e + 1, s.len() as int))[i - 1]);
                }
            }
        }
    }
}

/// Each line, followed by one newline, concatenated.
pub open spec fn spec_terminated(ls: Seq<Seq<char>>) -> Seq<char>
    decreases ls.len(),
{
    if ls.len() == 0 {
        Seq::empty()
    } else {
        ls[0] + seq!['\n'] + spec_terminated(ls.drop_first())
    }
}

/// Terminating distributes over appending line sequences.
pub proof fn lemma_terminated_append(a: Seq<Seq<char>>, b: Seq<Seq<char>>)
    ensures
        spec_terminated(a + b) == spec_terminated(a) + spec_terminated(b),
    decreases a.len(),
{
    if a.len() == 0 {
        assert(a + b =~= b);
        assert(spec_terminated(a) + spec_terminated(b) =~= spec_terminated(b));
    } else {
        lemma_terminated_append(a.drop_first(), b);
        assert((a + b).drop_first() =~= a.drop_first() + b);
        assert((a + b)[0] == a[0]);
        assert(a[0] + seq!['\n'] + (spec_terminated(a.drop_first()) + spec_terminated(b)) =~= (a[0]
            + seq!['\n'] + spec_terminated(a.drop_first())) + spec_terminated(b));
    }
}

/// Appending one line to the sequence appends that line and a newline to the
/// terminated text.
pub proof fn lemma_terminated_push(ls: Seq<Seq<char>>, l: Seq<char>)
    ensures
        spec_terminated(ls.push(l)) == spec_terminated(ls) + l + seq!['\n'],
{
    lemma_terminated_append(ls, seq![l]);
    assert(ls.push(l) =~= ls + seq![l]);
    assert(spec_terminated(seq![l]) == seq![l][0] + seq!['\n'] + spec_terminated(
        seq![l].drop_first(),
    ));
    assert(seq![l].drop_first() =~= Seq::<Seq<char>>::empty());
    assert(spec_terminated(ls) + (l + seq!['\n'] + Seq::<char>::empty()) =~= spec_terminated(ls) + l
        + seq!['\n']);
}

/// Splitting text that was built by terminating exact lines gives those lines
/// back, in front of the lines of whatever follows the built text.
pub proof fn lemma_lines_of_terminated(ls: Seq<Seq<char>>, tail: Seq<char>)
    requires
        forall|i: int| 0 <= i < ls.len() ==> spec_line_exact(#[trigger] ls[i]),
    ensures
        spec_lines(spec_terminated(ls) + tail) == ls + spec_lines(tail),
    decreases ls.len(),
{
    if ls.len() == 0 {
        assert(spec_terminated(ls) + tail =~= tail);
        assert(ls + spec_lines(tail) =~= spec_lines(tail));
    } else {
        let head = ls[0];
        let rest = spec_terminated(ls.drop_first()) + tail;
        let s = spec_terminated(ls) + tail;
        assert(s =~= head + seq!['\n'] + rest);
        assert(spec_line_exact(head));
        assert(forall|k: int| 0 <= k < head.len() ==> s[k] == head[k]);
        assert(s[head.len() as int] == '\n');
        lemma_line_end_unique(s, head.len() as int);
        let e = spec_line_end(s) as int;
        assert(e == head.len());
        assert(e < s.len());
        assert(s.subrange(0, e) =~= head);
        assert(spec_strip_cr(head) == head);
        assert(s.subrange(e + 1, s.len() as int) =~= rest);
        lemma_lines_of_terminated(ls.drop_first(), tail);
        assert(spec_lines(s) == seq![head] + (ls.drop_first() + spec_lines(tail)));
        assert(seq![head] + (ls.drop_first() + spec_lines(tail)) =~= ls + spec_lines(tail));
    }
}

/// `p` is a prefix of `l`.
pub open spec fn spec_starts_with(l: Seq<char>, p: Seq<char>) -> bool {
    p.len() <= l.len() && l.subrange(0, p.len() as int) == p
}

/// The line's key — the text before the first `=`, or the whole line where
/// there is none — equals `key`: the line starts with `key` followed by `=`,
/// or is exactly `key`. `key_eq` is `key` with the `=` appended.
pub open spec fn spec_key_is(l: Seq<char>, key_eq: Seq<char>, key: Seq<char>) -> bool {
    spec_starts_with(l, key_eq) || l == key
}

/// A line owned by this tool: its key — the text before the first `=`, or
/// the whole line where there is none — equals one of the six managed keys.
/// A line whose key merely begins with a managed key, such as one keyed
/// `GITHUB_APP_ID_BACKUP`, is not managed and survives a merge.
pub open spec fn spec_is_managed(l: Seq<char>) -> bool {
    ||| spec_key_is(l, "GITHUB_APP_ID="@, "GITHUB_APP_ID"@)
    ||| spec_key_is(l, "GITHUB_APP_NAME="@, "GITHUB_APP_NAME"@)
    ||| spec_key_is(l, "GITHUB_CLIENT_ID="@, "GITHUB_CLIENT_ID"@)
    ||| spec_key_is(l, "GITHUB_CLIENT_SECRET="@, "GITHUB_CLIENT_SECRET"@)
    ||| spec_key_is(l, "GITHUB_WEBHOOK_SECRET="@, "GITHUB_WEBHOOK_SECRET"@)
    ||| spec_key_is(l, "GITHUB_PRIVATE_KEY="@, "GITHUB_PRIVATE_KEY"@)
}

/// The lines of `old` that the merge keeps, in their original order.
pub open spec fn spec_unmanaged(old: Seq<char>) -> Seq<Seq<char>> {
    spec_lines(old).filter(|l: Seq<char>| !spec_is_managed(l))
}

/// The managed lines written by a merge, in their fixed order: id, name,
/// client id, client secret, webhook secret (when issued), private key.
pub open spec fn spec_managed_lines(a: AppView) -> Seq<Seq<char>> {
    seq![
        "GITHUB_APP_ID="@ + spec_u64_chars(a.id as nat),
        "GITHUB_APP_NAME="@ + a.name,
        "GITHUB_CLIENT_ID=\""@ + a.client_id + "\""@,
        "GITHUB_CLIENT_SECRET="@ + a.client_secret,
    ] + (match a.webhook_secret {
        Some(s) => seq!["GITHUB_WEBHOOK_SECRET="@ + s],
        None => Seq::<Seq<char>>::empty(),
    }) + seq!["GITHUB_PRIVATE_KEY=\""@ + spec_escape(a.pem) + "\""@]
}

/// The full text of a merge: the kept lines, then the managed lines, each
/// line newline-terminated.
pub open spec fn spec_update_env(old: Seq<char>, a: AppView) -> Seq<char> {
    spec_terminated(spec_unmanaged(old)) + spec_terminated(spec_managed_lines(a))
}

/// Credential values that keep the merged text line-per-line: no value may
/// hold a newline, and none may end in a carriage return that the next split
/// would strip. The private key is exempt: it is escaped before writing.
pub open spec fn spec_merge_exact(a: AppView) -> bool {
    &&& spec_line_exact(a.name)
    &&& spec_without_char(a.client_id, '\n')
    &&& spec_line_exact(a.client_secret)
    &&& match a.webhook_secret {
        Some(s) => spec_line_exact(s),
        None => true,
    }
}

/// Does `l` start with the literal `p`?
fn starts_with_lit(l: &Vec<char>, p: &str) -> (r: bool)
    ensures
        r == spec_starts_with(l@, p@),
{
    let n = p.unicode_len();
    if n > l.len() {
        return false;
    }
    let mut i: usize = 0;
    while i < n
        invariant
            n == p@.len(),
            n <= l@.len(),
            i <= n,
            forall|k: int| 0 <= k < i ==> l@[k] == p@[k],
        decreases n - i,
    {
        if l[i] != p.get_char(i) {
            proof {
                assert(l@.subrange(0, n as int)[i as int] != p@[i as int]);
            }
            return false;
        }
        i = i + 1;
    }
    proof {
        assert(l@.subrange(0, n as int) =~= p@);
    }
    true
}

/// Is `l` exactly the literal `p`?
fn equals_lit(l: &Vec<char>, p: &str) -> (r: bool)
    ensures
        r == (l@ == p@),
{
    let n = p.unicode_len();
    if n != l.len() {
        proof {
            assert(l@ != p@);
        }
        return false;
    }
    let mut i: usize = 0;
    while i < n
        invariant
            n == p@.len(),
            n == l@.len(),
            i <= n,
            forall|k: int| 0 <= k < i ==> l@[k] == p@[k],
        decreases n - i,
    {
        if l[i] != p.get_char(i) {
            return false;
        }
        i = i + 1;
    }
    proof {
        assert(l@ =~= p@);
    }
    true
}

/// Does the line's key equal the key whose `=`-terminated form is `key_eq`
/// and whose bare form is `key`?
fn key_is_lit(l: &Vec<char>, key_eq: &str, key: &str) -> (r: bool)
    ensures
        r == spec_key_is(l@, key_eq@, key@),
{
    starts_with_lit(l, key_eq) || equals_lit(l, key)
}

/// Is `l` a line owned by this tool?
pub fn line_is_managed(l: &Vec<char>) -> (r: bool)
    ensures
        r == spec_is_managed(l@),
{
    key_is_lit(l, "GITHUB_APP_ID=", "GITHUB_APP_ID")
        || key_is_lit(l, "GITHUB_APP_NAME=", "GITHUB_APP_NAME")
        || key_is_lit(l, "GITHUB_CLIENT_ID=", "GITHUB_CLIENT_ID")
        || key_is_lit(l, "GITHUB_CLIENT_SECRET=", "GITHUB_CLIENT_SECRET")
        || key_is_lit(l, "GITHUB_WEBHOOK_SECRET=", "GITHUB_WEBHOOK_SECRET")
        || key_is_lit(l, "GITHUB_PRIVATE_KEY=", "GITHUB_PRIVATE_KEY")
}

/// Split `v` into its lines, as `spec_lines` describes.
pub fn split_lines(v: &Vec<char>) -> (r: Vec<Vec<char>>)
    ensures
        r.deep_view() == spec_lines(v@),
{
    let mut r: Vec<Vec<char>> = Vec::new();
    let mut pos: usize = 0;
    proof {
        assert(v@.skip(0) =~= v@);
        assert(r.deep_view() =~= Seq::<Seq<char>>::empty());
        assert(Seq::<Seq<char>>::empty() + spec_lines(v@) =~= spec_lines(v@));
    }
    while pos < v.len()
        invariant
            pos <= v@.len(),
            spec_lines(v@) == r.deep_view() + spec_lines(v@.skip(pos as int)),
        decreases v@.len() - pos,
    {
        let ghost prev = r.deep_view();
        let mut e: usize = pos;
        while e < v.len() && v[e] != '\n'
            invariant
                pos <= e <= v@.len(),
                forall|k: int| pos <= k < e ==> v@[k] != '\n',
            decreases v@.len() - e,
        {
            e = e + 1;
        }
        proof {
            let rest = v@.skip(pos as int);
            assert forall|k: int| 0 <= k < e - pos implies rest[k] != '\n' by {
                assert(rest[k] == v@[pos + k]);
            }
            if e < v.len() {
                assert(rest[e - pos] == v@[e as int]);
            }
            lemma_line_end_unique(rest, e - pos);
        }
        if e == v.len() {
            let line = sub_chars(v, pos, e);
            proof {
                let rest = v@.skip(pos as int);
                assert(line@ =~= rest);
                assert(spec_lines(rest) =~= seq![rest]);
            }
            r.push(line);
            proof {
                assert(line.deep_view() =~= line@);
                assert(r.deep_view() =~= prev.push(line@));
                assert(prev.push(line@) =~= prev + spec_lines(v@.skip(pos as int)));
                assert(spec_lines(v@.skip(e as int)) =~= Seq::<Seq<char>>::empty());
            }
            pos = e;
            proof {
                assert(r.deep_view() + spec_lines(v@.skip(pos as int)) =~= r.deep_view());
            }
        } else {
            let cut = if e > pos && v[e - 1] == '\r' {
                e - 1
            } else {
                e
            };
            let line = sub_chars(v, pos, cut);
            proof {
                let rest = v@.skip(pos as int);
                let raw = rest.subrange(0, e - pos);
                assert(raw =~= v@.subrange(pos as int, e as int));
                if e > pos && v@[e - 1] == '\r' {
                    assert(raw[raw.len() - 1] == '\r');
                    assert(spec_strip_cr(raw) =~= v@.subrange(pos as int, cut as int));
                } else {
                    assert(spec_strip_cr(raw) =~= v@.subrange(pos as int, cut as int));
                }
                assert(line@ == spec_strip_cr(raw));
                assert(rest.subrange(e - pos + 1, rest.len() as int) =~= v@.skip(e + 1));
                assert(spec_lines(rest) == seq![spec_strip_cr(raw)] + spec_lines(v@.skip(e + 1)));
            }
            r.push(line);
            pos = e + 1;
            proof {
                assert(line.deep_view() =~= line@);
                assert(r.deep_view() =~= prev.push(line@));
                assert(prev.push(line@) + spec_lines(v@.skip(pos as int)) =~= prev + (seq![line@]
                    + spec_lines(v@.skip(pos as int))));
            }
        }
    }
    proof {
        assert(v@.skip(pos as int) =~= Seq::<char>::empty());
        assert(r.deep_view() + Seq::<Seq<char>>::empty() =~= r.deep_view());
    }
    r
}

/// Filtering a sequence that grew by one element keeps the old result and
/// appends the element exactly when it passes.
proof fn lemma_filter_push<A>(s: Seq<A>, x: A, pred: spec_fn(A) -> bool)
    ensures
        (s.push(x)).filter(pred) == s.filter(pred) + (if pred(x) {
            seq![x]
        } else {
            Seq::<A>::empty()
        }),
{
    reveal(Seq::filter);
    assert((s.push(x)).drop_last() =~= s);
    assert((s.push(x)).last() == x);
    if pred(x) {
        assert(s.filter(pred).push(x) =~= s.filter(pred) + seq![x]);
    } else {
        assert(s.filter(pred) =~= s.filter(pred) + Seq::<A>::empty());
    }
}

/// A filter that every element passes returns the sequence unchanged.
proof fn lemma_filter_all<A>(s: Seq<A>, pred: spec_fn(A) -> bool)
    requires
        forall|i: int| 0 <= i < s.len() ==> pred(#[trigger] s[i]),
    ensures
        s.filter(pred) == s,
    decreases s.len(),
{
    reveal(Seq::filter);
    if s.len() == 0 {
        assert(s.filter(pred) =~= s);
    } else {
        assert(forall|i: int| 0 <= i < s.drop_last().len() ==> pred(#[trigger] s.drop_last()[i]));
        lemma_filter_all(s.drop_last(), pred);
        assert(pred(s.last()));
        assert(s.drop_last().push(s.last()) =~= s);
    }
}

/// A filter that no element passes returns the empty sequence.
proof fn lemma_filter_none<A>(s: Seq<A>, pred: spec_fn(A) -> bool)
    requires
        forall|i: int| 0 <= i < s.len() ==> !pred(#[trigger] s[i]),
    ensures
        s.filter(pred) == Seq::<A>::empty(),
    decreases s.len(),
{
    reveal(Seq::filter);
    if s.len() == 0 {
        assert(s.filter(pred) =~= Seq::<A>::empty());
    } else {
        assert(forall|i: int| 0 <= i < s.drop_last().len() ==> !pred(#[trigger] s.drop_last()[i]));
        lemma_filter_none(s.drop_last(), pred);
        assert(!pred(s.last()));
    }
}

/// Merge the credentials into the text of an environment file.
///
/// Every line whose key this tool does not manage is kept, in its original
/// order; the managed lines are rewritten after them, in fixed order, with the
/// values from `app`.
#[verifier::rlimit(60)]
pub fn update_env(old_env: &str, app: &App) -> (r: String)
    ensures
        r@ == spec_update_env(old_env@, app@),
{
    let chars = str_chars(old_env);
    let lines = split_lines(&chars);
    let mut out: Vec<char> = Vec::new();
    let ghost pred = |l: Seq<char>| !spec_is_managed(l);
    let mut j: usize = 0;
    while j < lines.len()
        invariant
            j <= lines@.len(),
            lines.deep_view() == spec_lines(old_env@),
            out@ == spec_terminated(lines.deep_view().take(j as int).filter(pred)),
            pred == (|l: Seq<char>| !spec_is_managed(l)),
        decreases lines@.len() - j,
    {
        let ghost before = lines.deep_view().take(j as int);
        let line = &lines[j];
        proof {
            assert(line@ == lines.deep_view()[j as int]);
            assert(before.push(line@) =~= lines.deep_view().take(j as int + 1));
            lemma_filter_push(before, line@, pred);
        }
        if !line_is_managed(line) {
            push_chars(&mut out, line);
            out.push('\n');
            proof {
                lemma_terminated_push(before.filter(pred), line@);
                assert(before.filter(pred).push(line@) =~= before.filter(pred) + seq![line@]);
                assert(out@ =~= spec_terminated(before.filter(pred)) + line@ + seq!['\n']);
            }
        } else {
            proof {
                assert(before.filter(pred) + Seq::<Seq<char>>::empty() =~= before.filter(pred));
            }
        }
        j = j + 1;
    }
    proof {
        assert(lines.deep_view().take(lines@.len() as int) =~= lines.deep_view());
        assert(out@ == spec_terminated(spec_unmanaged(old_env@)));
    }
    let ghost kept = out@;
    push_str_chars(&mut out, "GITHUB_APP_ID=");
    let digits = u64_chars(app.id());
    push_chars(&mut out, &digits);
    out.push('\n');
    let ghost part_id = out@;
    proof {
        assert(part_id =~= kept + "GITHUB_APP_ID="@ + spec_u64_chars(app@.id as nat) + seq!['\n']);
    }
    push_str_chars(&mut out, "GITHUB_APP_NAME=");
    push_str_chars(&mut out, app.name().as_str());
    out.push('\n');
    let ghost part_name = out@;
    proof {
        assert(part_name =~= part_id + "GITHUB_APP_NAME="@ + app@.name + seq!['\n']);
    }
    push_str_chars(&mut out, "GITHUB_CLIENT_ID=\"");
    push_str_chars(&mut out, app.client_id().as_str());
    push_str_chars(&mut out, "\"\n");
    let ghost part_client = out@;
    proof {
        reveal_strlit("\"\n");
        assert("\"\n"@ =~= "\""@ + seq!['\n']) by {
            reveal_strlit("\"");
        }
        assert(part_client =~= part_name + "GITHUB_CLIENT_ID=\""@ + app@.client_id + "\""@
            + seq!['\n']);
    }
    push_str_chars(&mut out, "GITHUB_CLIENT_SECRET=");
    push_str_chars(&mut out, app.client_secret().as_str());
    out.push('\n');
    let ghost part_secret = out@;
    proof {
        assert(part_secret =~= part_client + "GITHUB_CLIENT_SECRET="@ + app@.client_secret
            + seq!['\n']);
    }
    match app.webhook_secret() {
        Some(ws) => {
            push_str_chars(&mut out, "GITHUB_WEBHOOK_SECRET=");
            push_str_chars(&mut out, ws.as_str());
            out.push('\n');
        },
        None => {},
    }
    let ghost part_hook = out@;
    proof {
        assert(part_hook =~= part_secret + (match app@.webhook_secret {
            Some(s) => "GITHUB_WEBHOOK_SECRET="@ + s + seq!['\n'],
            None => Seq::<char>::empty(),
        }));
    }
    push_str_chars(&mut out, "GITHUB_PRIVATE_KEY=\"");
    let pem_chars = str_chars(app.pem().as_str());
    let escaped = escape_default_chars(&pem_chars);
    push_chars(&mut out, &escaped);
    push_str_chars(&mut out, "\"\n");
    proof {
        reveal_strlit("\"\n");
        assert("\"\n"@ =~= "\""@ + seq!['\n']) by {
            reveal_strlit("\"");
        }
        assert(out@ =~= part_hook + "GITHUB_PRIVATE_KEY=\""@ + spec_escape(app@.pem) + "\""@
            + seq!['\n']);
        lemma_managed_block(app@);
        assert(out@ =~= kept + spec_managed_block(app@));
        assert(out@ == kept + spec_terminated(spec_managed_lines(app@)));
    }
    chars_string(&out)
}

/// The terminated managed lines, written out as one flat concatenation.
pub open spec fn spec_managed_block(a: AppView) -> Seq<char> {
    "GITHUB_APP_ID="@ + spec_u64_chars(a.id as nat) + seq!['\n'] + "GITHUB_APP_NAME="@ + a.name
        + seq!['\n'] + "GITHUB_CLIENT_ID=\""@ + a.client_id + "\""@ + seq!['\n']
        + "GITHUB_CLIENT_SECRET="@ + a.client_secret + seq!['\n'] + (match a.webhook_secret {
        Some(s) => "GITHUB_WEBHOOK_SECRET="@ + s + seq!['\n'],
        None => Seq::<char>::empty(),
    }) + "GITHUB_PRIVATE_KEY=\""@ + spec_escape(a.pem) + "\""@ + seq!['\n']
}

/// Terminating the managed lines gives exactly the flat managed block.
#[verifier::rlimit(60)]
pub proof fn lemma_managed_block(a: AppView)
    ensures
        spec_terminated(spec_managed_lines(a)) == spec_managed_block(a),
{
    reveal_with_fuel(spec_terminated, 8);
    let ls = spec_managed_lines(a);
    let l1 = "GITHUB_APP_ID="@ + spec_u64_chars(a.id as nat);
    let l2 = "GITHUB_APP_NAME="@ + a.name;
    let l3 = "GITHUB_CLIENT_ID=\""@ + a.client_id + "\""@;
    let l4 = "GITHUB_CLIENT_SECRET="@ + a.client_secret;
    let lk = "GITHUB_PRIVATE_KEY=\""@ + spec_escape(a.pem) + "\""@;
    match a.webhook_secret {
        Some(s) => {
            let l5 = "GITHUB_WEBHOOK_SECRET="@ + s;
            assert(ls =~= seq![l1, l2, l3, l4, l5, lk]);
            assert(ls.drop_first() =~= seq![l2, l3, l4, l5, lk]);
            assert(seq![l2, l3, l4, l5, lk].drop_first() =~= seq![l3, l4, l5, lk]);
            assert(seq![l3, l4, l5, lk].drop_first() =~= seq![l4, l5, lk]);
            assert(seq![l4, l5, lk].drop_first() =~= seq![l5, lk]);
            assert(seq![l5, lk].drop_first() =~= seq![lk]);
            assert(seq![lk].drop_first() =~= Seq::<Seq<char>>::empty());
            assert(spec_terminated(seq![lk]) == lk + seq!['\n'] + Seq::<char>::empty());
            assert(spec_terminated(ls) =~= spec_managed_block(a));
        },
        None => {
            assert(ls =~= seq![l1, l2, l3, l4, lk]);
            assert(ls.drop_first() =~= seq![l2, l3, l4, lk]);
            assert(seq![l2, l3, l4, lk].drop_first() =~= seq![l3, l4, lk]);
            assert(seq![l3, l4, lk].drop_first() =~= seq![l4, lk]);
            assert(seq![l4, lk].drop_first() =~= seq![lk]);
            assert(seq![lk].drop_first() =~= Seq::<Seq<char>>::empty());
            assert(spec_terminated(seq![lk]) == lk + seq!['\n'] + Seq::<char>::empty());
            assert(spec_terminated(ls) =~= spec_managed_block(a));
        },
    }
}

/// Every managed line a merge writes splits back to itself and is keyed by
/// its managed key, provided the credential values keep lines exact.
pub proof fn lemma_managed_lines_exact(a: AppView)
    requires
        spec_merge_exact(a),
    ensures
        forall|i: int|
            0 <= i < spec_managed_lines(a).len() ==> spec_line_exact(
                #[trigger] spec_managed_lines(a)[i],
            ),
        forall|i: int|
            0 <= i < spec_managed_lines(a).len() ==> spec_is_managed(
                #[trigger] spec_managed_lines(a)[i],
            ),
{
    reveal_strlit("GITHUB_APP_ID=");
    reveal_strlit("GITHUB_APP_NAME=");
    reveal_strlit("GITHUB_CLIENT_ID=\"");
    reveal_strlit("GITHUB_CLIENT_ID=");
    reveal_strlit("GITHUB_CLIENT_SECRET=");
    reveal_strlit("GITHUB_WEBHOOK_SECRET=");
    reveal_strlit("GITHUB_PRIVATE_KEY=\"");
    reveal_strlit("GITHUB_PRIVATE_KEY=");
    reveal_strlit("\"");
    lemma_u64_chars_plain(a.id as nat);
    lemma_escape_plain(a.pem);
    let ls = spec_managed_lines(a);
    let l1 = "GITHUB_APP_ID="@ + spec_u64_chars(a.id as nat);
    let l2 = "GITHUB_APP_NAME="@ + a.name;
    let l3 = "GITHUB_CLIENT_ID=\""@ + a.client_id + "\""@;
    let l4 = "GITHUB_CLIENT_SECRET="@ + a.client_secret;
    let lk = "GITHUB_PRIVATE_KEY=\""@ + spec_escape(a.pem) + "\""@;
    assert(spec_line_exact(l1) && spec_is_managed(l1)) by {
        assert(l1.subrange(0, 14) =~= "GITHUB_APP_ID="@);
    }
    assert(spec_line_exact(l2) && spec_is_managed(l2)) by {
        assert(l2.subrange(0, 16) =~= "GITHUB_APP_NAME="@);
    }
    assert(spec_line_exact(l3) && spec_is_managed(l3)) by {
        assert(l3.subrange(0, 17) =~= "GITHUB_CLIENT_ID="@);
    }
    assert(spec_line_exact(l4) && spec_is_managed(l4)) by {
        assert(l4.subrange(0, 21) =~= "GITHUB_CLIENT_SECRET="@);
    }
    assert(spec_line_exact(lk) && spec_is_managed(lk)) by {
        assert(lk.subrange(0, 19) =~= "GITHUB_PRIVATE_KEY="@);
    }
    match a.webhook_secret {
        Some(s) => {
            let l5 = "GITHUB_WEBHOOK_SECRET="@ + s;
            assert(spec_line_exact(l5) && spec_is_managed(l5)) by {
                assert(l5.subrange(0, 22) =~= "GITHUB_WEBHOOK_SECRET="@);
            }
            assert(ls =~= seq![l1, l2, l3, l4, l5, lk]);
        },
        None => {
            assert(ls =~= seq![l1, l2, l3, l4, lk]);
        },
    }
}

/// A merged text splits into exactly the kept lines followed by the managed
/// lines: one line per managed key carrying the new value, and every
/// unmanaged line preserved in its original relative order.
///
/// Kept lines that end in a carriage return are left out: a later split would
/// not return them as they are.
pub proof fn lemma_update_env_lines(old: Seq<char>, a: AppView)
    requires
        spec_merge_exact(a),
        forall|i: int|
            0 <= i < spec_unmanaged(old).len() ==> (#[trigger] spec_unmanaged(old)[i]).len() == 0
                || spec_unmanaged(old)[i][spec_unmanaged(old)[i].len() - 1] != '\r',
    ensures
        spec_lines(spec_update_env(old, a)) == spec_unmanaged(old) + spec_managed_lines(a),
        forall|i: int|
            0 <= i < spec_unmanaged(old).len() ==> !spec_is_managed(
                #[trigger] spec_unmanaged(old)[i],
            ),
        forall|i: int|
            0 <= i < spec_managed_lines(a).len() ==> spec_is_managed(
                #[trigger] spec_managed_lines(a)[i],
            ),
{
    let pred = |l: Seq<char>| !spec_is_managed(l);
    let u = spec_unmanaged(old);
    let m = spec_managed_lines(a);
    lemma_lines_without_newline(old);
    assert forall|i: int| 0 <= i < u.len() implies spec_line_exact(#[trigger] u[i]) && !spec_is_managed(
        u[i],
    ) by {
        spec_lines(old).lemma_filter_pred(pred, i);
        assert(u.contains(u[i]));
        spec_lines(old).lemma_filter_contains_rev(pred, u[i]);
        let j = choose|j: int| 0 <= j < spec_lines(old).len() && spec_lines(old)[j] == u[i];
        assert(spec_without_char(spec_lines(old)[j], '\n'));
    }
    lemma_managed_lines_exact(a);
    let all = u + m;
    assert forall|i: int| 0 <= i < all.len() implies spec_line_exact(#[trigger] all[i]) by {
        if i < u.len() {
            assert(all[i] == u[i]);
        } else {
            assert(all[i] == m[i - u.len()]);
        }
    }
    lemma_terminated_append(u, m);
    lemma_lines_of_terminated(all, Seq::<char>::empty());
    assert(spec_terminated(all) + Seq::<char>::empty() =~= spec_update_env(old, a));
    assert(spec_lines(Seq::<char>::empty()) =~= Seq::<Seq<char>>::empty());
    assert(all + Seq::<Seq<char>>::empty() =~= all);
}

/// Merging the same credentials twice gives the same text as merging them
/// once.
pub proof fn lemma_update_env_idempotent(old: Seq<char>, a: AppView)
    requires
        spec_merge_exact(a),
        forall|i: int|
            0 <= i < spec_unmanaged(old).len() ==> (#[trigger] spec_unmanaged(old)[i]).len() == 0
                || spec_unmanaged(old)[i][spec_unmanaged(old)[i].len() - 1] != '\r',
    ensures
        spec_update_env(spec_update_env(old, a), a) == spec_update_env(old, a),
{
    let pred = |l: Seq<char>| !spec_is_managed(l);
    let u = spec_unmanaged(old);
    let m = spec_managed_lines(a);
    lemma_update_env_lines(old, a);
    let merged = spec_update_env(old, a);
    Seq::filter_distributes_over_add(u, m, pred);
    lemma_filter_all(u, pred);
    lemma_filter_none(m, pred);
    assert(spec_unmanaged(merged) =~= u);
}

} // verus!
