//! Rewriting the `description=` line of `module.prop` so that it carries the status tag
//! of the current mode.
use vstd::prelude::*;
use crate::mode::{ModuleMode, status_prefix, lemma_status_prefixes};
use crate::text::{chars_of, prefix_in, has_prefix, free_of};

verus! {

/// The key of the line that is rewritten.
pub open spec fn description_key() -> Seq<char> {
    "description="@
}

/// The value of a description with one known status tag taken off its front, if it has one.
pub open spec fn strip_status(d: Seq<char>) -> Seq<char> {
    if has_prefix(d, status_prefix(ModuleMode::Suspended)) {
        d.skip(status_prefix(ModuleMode::Suspended).len() as int)
    } else if has_prefix(d, status_prefix(ModuleMode::LockedPps)) {
        d.skip(status_prefix(ModuleMode::LockedPps).len() as int)
    } else if has_prefix(d, status_prefix(ModuleMode::AutoProtocol)) {
        d.skip(status_prefix(ModuleMode::AutoProtocol).len() as int)
    } else {
        d
    }
}

/// One line after the rewrite: a description line gets the tag of `m` in place of any
/// known tag; every other line is kept as it is.
pub open spec fn rewrite_line(l: Seq<char>, m: ModuleMode) -> Seq<char> {
    if has_prefix(l, description_key()) {
        description_key() + status_prefix(m) + strip_status(l.skip(description_key().len() as int))
    } else {
        l
    }
}

/// The number of characters before the first line break of `s` (all of them if none).
pub open spec fn line_len(s: Seq<char>) -> nat
    decreases s.len(),
{
    if s.len() == 0 {
        0
    } else if s[0] == '\n' {
        0
    } else {
        1 + line_len(s.skip(1))
    }
}

/// The whole file after the rewrite: each line, as `\n` separates them, is rewritten
/// on its own, and the line breaks stay where they were.
pub open spec fn rewrite_text(s: Seq<char>, m: ModuleMode) -> Seq<char>
    decreases s.len(),
{
    let n = line_len(s);
    if n < s.len() {
        rewrite_line(s.take(n as int), m) + seq!['\n'] + rewrite_text(s.skip(n + 1 as int), m)
    } else {
        rewrite_line(s, m)
    }
}

/// `line_len` finds the first line break.
pub proof fn lemma_line_len(s: Seq<char>)
    ensures
        line_len(s) <= s.len(),
        free_of(s.take(line_len(s) as int), '\n'),
        line_len(s) < s.len() ==> s[line_len(s) as int] == '\n',
    decreases s.len(),
{
    if s.len() > 0 && s[0] != '\n' {
        lemma_line_len(s.skip(1));
        assert forall|j: int| 0 <= j < line_len(s) implies s.take(line_len(s) as int)[j] != '\n' by {
            if j > 0 {
                assert(s.take(line_len(s) as int)[j] == s.skip(1).take(line_len(s.skip(1)) as int)[j - 1]);
            }
        }
    }
}

/// A line break at `n` with none before it is the first one.
pub proof fn lemma_line_len_at(s: Seq<char>, n: int)
    requires
        0 <= n <= s.len(),
        free_of(s.take(n), '\n'),
        n < s.len() ==> s[n] == '\n',
    ensures
        line_len(s) == n,
    decreases n,
{
    if n > 0 {
        assert(s.take(n)[0] == s[0]);
        assert(s.skip(1).take(n - 1) =~= s.take(n).skip(1));
        let t = s.skip(1).take(n - 1);
        assert forall|j: int| 0 <= j < n - 1 implies t[j] != '\n' by {
            assert(t[j] == s.take(n)[j + 1]);
        }
        lemma_line_len_at(s.skip(1), n - 1);
    }
}

/// Taking one known tag off the front of a value leaves the rest of it.
proof fn lemma_strip_status(m: ModuleMode, y: Seq<char>)
    ensures
        strip_status(status_prefix(m) + y) == y,
{
    lemma_status_prefixes();
    let d = status_prefix(m) + y;
    assert(d.subrange(0, status_prefix(m).len() as int) =~= status_prefix(m));
    assert(d.skip(status_prefix(m).len() as int) =~= y);
    if m != ModuleMode::Suspended {
        let p = status_prefix(ModuleMode::Suspended);
        assert(d[1] == status_prefix(m)[1]);
        if has_prefix(d, p) {
            assert(d.subrange(0, p.len() as int)[1] == p[1]);
        }
    }
    if m == ModuleMode::AutoProtocol {
        let p = status_prefix(ModuleMode::LockedPps);
        assert(d[1] == status_prefix(m)[1]);
        if has_prefix(d, p) {
            assert(d.subrange(0, p.len() as int)[1] == p[1]);
        }
    }
}

/// A rewritten line begins with the key when the line it came from did, and gains no
/// line break.
proof fn lemma_rewrite_line_shape(l: Seq<char>, m: ModuleMode)
    requires
        free_of(l, '\n'),
    ensures
        free_of(rewrite_line(l, m), '\n'),
        has_prefix(l, description_key()) ==> has_prefix(rewrite_line(l, m), description_key()),
{
    reveal_strlit("description=");
    lemma_status_prefixes();
    if has_prefix(l, description_key()) {
        let k = description_key();
        let rest = l.skip(k.len() as int);
        let r = rewrite_line(l, m);
        assert(r.subrange(0, k.len() as int) =~= k);
        let s = strip_status(rest);
        assert(free_of(s, '\n')) by {
            assert forall|j: int| 0 <= j < s.len() implies s[j] != '\n' by {
                assert(s[j] == l[j + (l.len() - s.len())]);
            }
        }
        assert forall|j: int| 0 <= j < r.len() implies r[j] != '\n' by {
            if j < k.len() {
            } else if j < k.len() + status_prefix(m).len() {
                assert(r[j] == status_prefix(m)[j - k.len()]);
            } else {
                assert(r[j] == s[j - k.len() - status_prefix(m).len()]);
            }
        }
    }
}

/// Rewriting a line a second time with the same mode changes nothing.
pub proof fn lemma_rewrite_line_idempotent(l: Seq<char>, m: ModuleMode)
    ensures
        rewrite_line(rewrite_line(l, m), m) == rewrite_line(l, m),
{
    let k = description_key();
    if has_prefix(l, k) {
        let y = strip_status(l.skip(k.len() as int));
        let r = k + status_prefix(m) + y;
        assert(r.subrange(0, k.len() as int) =~= k);
        assert(r.skip(k.len() as int) =~= status_prefix(m) + y);
        lemma_strip_status(m, y);
    }
}

/// The rewrite treats the lines on either side of a line break apart from each other.
pub proof fn lemma_rewrite_text_split(a: Seq<char>, c: Seq<char>, m: ModuleMode)
    ensures
        rewrite_text(a + seq!['\n'] + c, m) == rewrite_text(a, m) + seq!['\n'] + rewrite_text(c, m),
    decreases a.len(),
{
    let s = a + seq!['\n'] + c;
    lemma_line_len(a);
    let n = line_len(a);
    assert(s.take(n as int) =~= a.take(n as int));
    if n < a.len() {
        lemma_line_len_at(s, n as int);
        assert(s.skip(n + 1 as int) =~= a.skip(n + 1 as int) + seq!['\n'] + c);
        lemma_rewrite_text_split(a.skip(n + 1 as int), c, m);
    } else {
        assert(a.take(n as int) =~= a);
        lemma_line_len_at(s, a.len() as int);
        assert(s.skip(a.len() + 1 as int) =~= c);
    }
}

/// Rewriting a file a second time with the same mode changes nothing: the file is
/// byte-identical to the one the first rewrite produced.
pub proof fn lemma_rewrite_idempotent(s: Seq<char>, m: ModuleMode)
    ensures
        rewrite_text(rewrite_text(s, m), m) == rewrite_text(s, m),
    decreases s.len(),
{
    lemma_line_len(s);
    let n = line_len(s);
    let out = rewrite_text(s, m);
    if n < s.len() {
        let l = s.take(n as int);
        let r = rewrite_line(l, m);
        let t = rewrite_text(s.skip(n + 1 as int), m);
        lemma_rewrite_line_shape(l, m);
        assert(out == r + seq!['\n'] + t);
        lemma_rewrite_text_split(r, t, m);
        lemma_line_len_at(r, r.len() as int);
        assert(r.take(r.len() as int) =~= r);
        lemma_rewrite_line_idempotent(l, m);
        lemma_rewrite_idempotent(s.skip(n + 1 as int), m);
    } else {
        assert(s.take(n as int) =~= s);
        lemma_rewrite_line_shape(s, m);
        lemma_line_len_at(out, out.len() as int);
        assert(out.take(out.len() as int) =~= out);
        lemma_rewrite_line_idempotent(s, m);
    }
}

/// A description line that carries any known status tag gets exactly the tag of the new
/// mode in its place: tags are replaced, never stacked. With the line-by-line property
/// above, this holds of that line wherever it stands in the file.
pub proof fn lemma_tag_replaced(old_mode: ModuleMode, y: Seq<char>, m: ModuleMode)
    requires
        free_of(y, '\n'),
    ensures
        rewrite_text(description_key() + status_prefix(old_mode) + y, m)
            == description_key() + status_prefix(m) + y,
{
    reveal_strlit("description=");
    lemma_status_prefixes();
    let k = description_key();
    let l = k + status_prefix(old_mode) + y;
    assert(l.subrange(0, k.len() as int) =~= k);
    assert(l.skip(k.len() as int) =~= status_prefix(old_mode) + y);
    lemma_strip_status(old_mode, y);
    assert forall|j: int| 0 <= j < l.len() implies l[j] != '\n' by {
        if j < k.len() {
        } else if j < k.len() + status_prefix(old_mode).len() {
            assert(l[j] == status_prefix(old_mode)[j - k.len()]);
        } else {
            assert(l[j] == y[j - k.len() - status_prefix(old_mode).len()]);
        }
    }
    assert(l.take(l.len() as int) =~= l);
    lemma_line_len_at(l, l.len() as int);
}

/// A description line with any known status tag, standing between other lines of a file,
/// comes out with exactly the tag of the new mode, and the lines around it are rewritten
/// on their own.
pub proof fn lemma_tag_replaced_in_file(
    head: Seq<char>,
    old_mode: ModuleMode,
    y: Seq<char>,
    tail: Seq<char>,
    m: ModuleMode,
)
    requires
        free_of(y, '\n'),
    ensures
        rewrite_text(
            head + seq!['\n'] + description_key() + status_prefix(old_mode) + y + seq!['\n'] + tail,
            m,
        ) == rewrite_text(head, m) + seq!['\n'] + description_key() + status_prefix(m) + y + seq![
            '\n',
        ] + rewrite_text(tail, m),
{
    let nl = seq!['\n'];
    let k = description_key();
    let line = k + status_prefix(old_mode) + y;
    let rest = line + nl + tail;
    let whole = head + nl + k + status_prefix(old_mode) + y + nl + tail;
    assert(whole =~= head + nl + rest);
    lemma_rewrite_text_split(head, rest, m);
    lemma_rewrite_text_split(line, tail, m);
    lemma_tag_replaced(old_mode, y, m);
    let new_line = k + status_prefix(m) + y;
    assert(rewrite_text(rest, m) == new_line + nl + rewrite_text(tail, m));
    assert(rewrite_text(head, m) + nl + (new_line + nl + rewrite_text(tail, m)) =~= rewrite_text(
        head,
        m,
    ) + nl + k + status_prefix(m) + y + nl + rewrite_text(tail, m));
}

/// Appends the rewrite of the line `cs[start..end]` to `out`.
fn push_rewritten_line(
    out: &mut String,
    content: &str,
    cs: &Vec<char>,
    key: &Vec<char>,
    start: usize,
    end: usize,
    mode: ModuleMode,
)
    requires
        cs@ == content@,
        key@ == description_key(),
        start <= end <= cs.len(),
    ensures
        final(out)@ == old(out)@ + rewrite_line(cs@.subrange(start as int, end as int), mode),
{
    let ghost l = cs@.subrange(start as int, end as int);
    if prefix_in(cs, start, end, key) {
        let k = start + key.len();
        assert(l.skip(key@.len() as int) =~= cs@.subrange(k as int, end as int));
        let suspended = chars_of(ModuleMode::Suspended.prefix());
        let locked = chars_of(ModuleMode::LockedPps.prefix());
        let auto = chars_of(ModuleMode::AutoProtocol.prefix());
        let rest = if prefix_in(cs, k, end, &suspended) {
            k + suspended.len()
        } else if prefix_in(cs, k, end, &locked) {
            k + locked.len()
        } else if prefix_in(cs, k, end, &auto) {
            k + auto.len()
        } else {
            k
        };
        assert(strip_status(l.skip(key@.len() as int)) =~= cs@.subrange(rest as int, end as int));
        out.append("description=");
        out.append(mode.prefix());
        out.append(content.substring_char(rest, end));
    } else {
        out.append(content.substring_char(start, end));
    }
}

/// The contents of `module.prop` after its description line is given the status tag of
/// `mode`, any known tag it had being taken off first. Every other line, and every line
/// break, is kept as it is.
pub fn rewrite_description(content: &str, mode: ModuleMode) -> (r: String)
    ensures
        r@ == rewrite_text(content@, mode),
{
    let cs = chars_of(content);
    let key = chars_of("description=");
    let mut out = String::new();
    let mut start: usize = 0;
    proof {
        reveal_strlit("\n");
        assert(cs@.skip(0) =~= cs@);
    }
    loop
        invariant
            start <= cs.len(),
            cs@ == content@,
            key@ == description_key(),
            "\n"@ == seq!['\n'],
            out@ + rewrite_text(cs@.skip(start as int), mode) == rewrite_text(cs@, mode),
        decreases cs.len() - start,
    {
        let mut end = start;
        while end < cs.len() && cs[end] != '\n'
            invariant
                start <= end <= cs.len(),
                forall|j: int| start <= j < end ==> cs@[j] != '\n',
            decreases cs.len() - end,
        {
            end += 1;
        }
        let ghost t = cs@.skip(start as int);
        proof {
            assert(t.take(end - start) =~= cs@.subrange(start as int, end as int));
            lemma_line_len_at(t, end - start);
        }
        push_rewritten_line(&mut out, content, &cs, &key, start, end, mode);
        if end < cs.len() {
            assert(t.skip(end - start + 1) =~= cs@.skip(end + 1));
            out.append("\n");
            start = end + 1;
        } else {
            assert(t =~= cs@.subrange(start as int, end as int));
            return out;
        }
    }
}

} // verus!
