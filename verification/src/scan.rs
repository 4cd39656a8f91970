//! The transcript scan of the completion evaluator: pulling tool-call
//! envelopes out of assistant messages, classifying shell commands, walking
//! the `<tool_result>` blocks of user messages, and folding all of it into
//! the write/read evidence state.

use vstd::prelude::*;

use crate::host::{parse_tool_call, tool_call_fields};
use crate::phrases::{
    failure_body, is_failure_body, is_read_command, is_write_command, read_command,
    write_command,
};
use crate::text::{
    find_from, lemma_find_from_none, lemma_find_from_some, lemma_find_from_spec, matches_at,
    str_eq, str_find,
};

verus! {

/// How a pending shell tool call will touch the filesystem.
#[derive(Clone, Copy, Debug, PartialEq, Eq, Structural)]
pub enum ShellKind {
    WriteLike,
    ReadLike,
    Other,
}

/// Classification of a shell command line; write tests come before read
/// tests.
pub open spec fn classify_shell(cmd: Seq<char>) -> ShellKind {
    if is_write_command(cmd) {
        ShellKind::WriteLike
    } else if is_read_command(cmd) {
        ShellKind::ReadLike
    } else {
        ShellKind::Other
    }
}

pub fn classify_shell_command(cmd: &str) -> (k: ShellKind)
    ensures
        k == classify_shell(cmd@),
{
    if write_command(cmd) {
        ShellKind::WriteLike
    } else if read_command(cmd) {
        ShellKind::ReadLike
    } else {
        ShellKind::Other
    }
}

/// Splitting a text on a separator, as `str::split` walks non-overlapping
/// occurrences left to right.
pub open spec fn split_seq(s: Seq<char>, sep: Seq<char>) -> Seq<Seq<char>>
    decreases s.len(),
{
    match find_from(s, sep, 0) {
        None => seq![s],
        Some(i) => {
            let next = i + sep.len();
            if 0 < next && next <= s.len() {
                seq![s.subrange(0, i)] + split_seq(s.subrange(next, s.len() as int), sep)
            } else {
                seq![s.subrange(0, i)]
            }
        },
    }
}

/// The shell kind one split segment contributes: the part before the close
/// tag must parse as a tool-call envelope naming the `shell` tool; its
/// `command` argument is then classified, defaulting to `Other`.
pub open spec fn segment_kind(seg: Seq<char>, close: Seq<char>) -> Option<ShellKind> {
    match find_from(seg, close, 0) {
        None => None,
        Some(e) => {
            match tool_call_fields(seg.subrange(0, e)) {
                None => None,
                Some(p) => if p.0 == "shell"@ {
                    Some(
                        match p.1 {
                            Some(c) => classify_shell(c),
                            None => ShellKind::Other,
                        },
                    )
                } else {
                    None
                },
            }
        },
    }
}

pub open spec fn kind_contrib(seg: Seq<char>, close: Seq<char>) -> Seq<ShellKind> {
    match segment_kind(seg, close) {
        None => Seq::empty(),
        Some(k) => seq![k],
    }
}

pub open spec fn segment_kinds(segs: Seq<Seq<char>>, close: Seq<char>) -> Seq<ShellKind>
    decreases segs.len(),
{
    if segs.len() == 0 {
        Seq::empty()
    } else {
        kind_contrib(segs[0], close) + segment_kinds(segs.drop_first(), close)
    }
}

/// All shell kinds one open/close tag pair yields from a message.
pub open spec fn pair_kinds(content: Seq<char>, open: Seq<char>, close: Seq<char>) -> Seq<
    ShellKind,
> {
    segment_kinds(split_seq(content, open), close)
}

/// All shell kinds an assistant message enqueues, walking the four accepted
/// tag pairs in order.
pub open spec fn assistant_kinds(content: Seq<char>) -> Seq<ShellKind> {
    pair_kinds(content, "<tool_call>"@, "</tool_call>"@)
        + pair_kinds(content, "<toolcall>"@, "</toolcall>"@)
        + pair_kinds(content, "<tool-call>"@, "</tool-call>"@)
        + pair_kinds(content, "<invoke>"@, "</invoke>"@)
}

proof fn lemma_segment_kinds_cons(first: Seq<char>, tail: Seq<Seq<char>>, close: Seq<char>)
    ensures
        segment_kinds(seq![first] + tail, close) == kind_contrib(first, close) + segment_kinds(
            tail,
            close,
        ),
{
    let whole = seq![first] + tail;
    assert(whole[0] == first);
    assert(whole.drop_first() =~= tail);
}

/// A suffix sees the same matches, shifted.
pub proof fn lemma_matches_shift(s: Seq<char>, pat: Seq<char>, pos: int, k: int)
    requires
        0 <= pos <= k,
        pos <= s.len(),
    ensures
        matches_at(s, pat, k) == matches_at(s.subrange(pos, s.len() as int), pat, k - pos),
{
    let suf = s.subrange(pos, s.len() as int);
    if k + pat.len() <= s.len() {
        assert(s.subrange(k, k + pat.len() as int) =~= suf.subrange(
            k - pos,
            k - pos + pat.len() as int,
        ));
    }
}

/// Process one split segment: append the shell kind it contributes, if any.
fn process_segment(seg: &str, close: &str, out: &mut Vec<ShellKind>)
    ensures
        final(out)@ == old(out)@ + kind_contrib(seg@, close@),
{
    match str_find(seg, close, 0) {
        None => {},
        Some(e) => {
            let body = seg.substring_char(0, e);
            match parse_tool_call(body) {
                None => {},
                Some((name, cmd)) => {
                    if str_eq(name.as_str(), "shell") {
                        let k = match &cmd {
                            Some(c) => classify_shell_command(c.as_str()),
                            None => ShellKind::Other,
                        };
                        out.push(k);
                    }
                },
            }
        },
    }
}

/// Walk all segments of `content` split on `open`, appending each
/// segment's contribution.
fn collect_pair(content: &str, open: &str, close: &str, out: &mut Vec<ShellKind>)
    requires
        open@.len() >= 1,
    ensures
        final(out)@ == old(out)@ + pair_kinds(content@, open@, close@),
{
    let n = content.unicode_len();
    let open_len = open.unicode_len();
    let ghost mut acc: Seq<ShellKind> = Seq::empty();
    let mut pos: usize = 0;
    proof {
        assert(content@.subrange(0, n as int) =~= content@);
        assert(Seq::<ShellKind>::empty() + segment_kinds(split_seq(content@, open@), close@)
            =~= segment_kinds(split_seq(content@, open@), close@));
    }
    loop
        invariant
            0 <= pos <= n,
            n == content@.len(),
            open_len == open@.len(),
            open_len >= 1,
            out@ == old(out)@ + acc,
            acc + segment_kinds(
                split_seq(content@.subrange(pos as int, n as int), open@),
                close@,
            ) == pair_kinds(content@, open@, close@),
        decreases n - pos,
    {
        let ghost suffix = content@.subrange(pos as int, n as int);
        match str_find(content, open, pos) {
            None => {
                let seg = content.substring_char(pos, n);
                proof {
                    lemma_find_from_spec(content@, open@, pos as int);
                    assert forall|k: int| 0 <= k implies !matches_at(suffix, open@, k) by {
                        lemma_matches_shift(content@, open@, pos as int, k + pos);
                    }
                    lemma_find_from_none(suffix, open@, 0);
                    assert(split_seq(suffix, open@) == seq![suffix]);
                    lemma_segment_kinds_cons(suffix, Seq::empty(), close@);
                    assert(seq![suffix] + Seq::<Seq<char>>::empty() =~= seq![suffix]);
                }
                process_segment(seg, close, out);
                return;
            },
            Some(i) => {
                let seg = content.substring_char(pos, i);
                proof {
                    lemma_find_from_spec(content@, open@, pos as int);
                    assert forall|k: int| 0 <= k < i - pos implies !matches_at(
                        suffix,
                        open@,
                        k,
                    ) by {
                        lemma_matches_shift(content@, open@, pos as int, k + pos);
                    }
                    lemma_matches_shift(content@, open@, pos as int, i as int);
                    lemma_find_from_some(suffix, open@, 0, i - pos);
                    let next = i - pos + open@.len();
                    assert(0 < next && next <= suffix.len());
                    assert(split_seq(suffix, open@) == seq![suffix.subrange(0, i - pos)]
                        + split_seq(suffix.subrange(next as int, suffix.len() as int), open@));
                    assert(seg@ =~= suffix.subrange(0, i - pos));
                    lemma_segment_kinds_cons(
                        suffix.subrange(0, i - pos),
                        split_seq(suffix.subrange(next as int, suffix.len() as int), open@),
                        close@,
                    );
                    assert(content@.subrange(i + open_len, n as int) =~= suffix.subrange(
                        next as int,
                        suffix.len() as int,
                    ));
                    acc = acc + kind_contrib(seg@, close@);
                }
                process_segment(seg, close, out);
                pos = i + open_len;
            },
        }
    }
}

/// Append every shell kind the assistant message enqueues, tag pair by tag
/// pair.
pub fn collect_assistant_kinds(content: &str, out: &mut Vec<ShellKind>)
    ensures
        final(out)@ == old(out)@ + assistant_kinds(content@),
{
    proof {
        reveal_strlit("<tool_call>");
        reveal_strlit("<toolcall>");
        reveal_strlit("<tool-call>");
        reveal_strlit("<invoke>");
    }
    collect_pair(content, "<tool_call>", "</tool_call>", out);
    collect_pair(content, "<toolcall>", "</toolcall>", out);
    collect_pair(content, "<tool-call>", "</tool-call>", out);
    collect_pair(content, "<invoke>", "</invoke>", out);
}

/// The write/read evidence gathered while walking a transcript: the FIFO
/// queue of pending shell kinds, whether a write-like tool result has
/// succeeded, and whether a read-like one succeeded after that.
pub struct Evidence {
    pub queue: Seq<ShellKind>,
    pub saw_write: bool,
    pub saw_read: bool,
}

impl Evidence {
    pub open spec fn initial() -> Evidence {
        Evidence { queue: Seq::empty(), saw_write: false, saw_read: false }
    }
}

/// The tool results of a user message, in order: each is a `(name, body)`
/// pair cut out of a `<tool_result name="...">...</tool_result>` block,
/// scanning from position `i`; a malformed block ends the scan.
pub open spec fn results_from(content: Seq<char>, i: int) -> Seq<(Seq<char>, Seq<char>)>
    decreases content.len() - i,
{
    match find_from(content, "<tool_result name=\""@, i) {
        None => Seq::empty(),
        Some(s0) => {
            let name_start = s0 + "<tool_result name=\""@.len();
            match find_from(content, "\""@, name_start) {
                None => Seq::empty(),
                Some(ne) => {
                    let name = content.subrange(name_start, ne);
                    match find_from(content, ">"@, ne) {
                        None => Seq::empty(),
                        Some(bs) => {
                            let body_start = bs + 1;
                            match find_from(content, "</tool_result>"@, body_start) {
                                None => Seq::empty(),
                                Some(ce) => {
                                    let body = content.subrange(body_start, ce);
                                    let next = ce + "</tool_result>"@.len();
                                    if i < next && next <= content.len() {
                                        seq![(name, body)] + results_from(content, next)
                                    } else {
                                        seq![(name, body)]
                                    }
                                },
                            }
                        },
                    }
                },
            }
        },
    }
}

/// The kind a tool result is counted as, given the pending shell queue.
pub open spec fn result_kind(name: Seq<char>, queue: Seq<ShellKind>) -> ShellKind {
    if name == "file_write"@ {
        ShellKind::WriteLike
    } else if name == "file_read"@ {
        ShellKind::ReadLike
    } else if name == "shell"@ {
        if queue.len() == 0 {
            ShellKind::Other
        } else {
            queue[0]
        }
    } else {
        ShellKind::Other
    }
}

pub open spec fn queue_after(name: Seq<char>, queue: Seq<ShellKind>) -> Seq<ShellKind> {
    if name == "shell"@ && queue.len() > 0 {
        queue.drop_first()
    } else {
        queue
    }
}

/// Folding one tool result into the evidence: a successful write-like
/// result sets the write flag; a successful read-like result sets the read
/// flag only once the write flag already holds.
pub open spec fn apply_result(st: Evidence, r: (Seq<char>, Seq<char>)) -> Evidence {
    let k = result_kind(r.0, st.queue);
    let ok = !is_failure_body(r.1);
    Evidence {
        queue: queue_after(r.0, st.queue),
        saw_write: st.saw_write || (k == ShellKind::WriteLike && ok),
        saw_read: st.saw_read || (k == ShellKind::ReadLike && ok && st.saw_write),
    }
}

pub open spec fn apply_results(st: Evidence, rs: Seq<(Seq<char>, Seq<char>)>) -> Evidence
    decreases rs.len(),
{
    if rs.len() == 0 {
        st
    } else {
        apply_results(apply_result(st, rs[0]), rs.drop_first())
    }
}

proof fn lemma_apply_results_cons(
    st: Evidence,
    r: (Seq<char>, Seq<char>),
    rs: Seq<(Seq<char>, Seq<char>)>,
)
    ensures
        apply_results(st, seq![r] + rs) == apply_results(apply_result(st, r), rs),
{
    let whole = seq![r] + rs;
    assert(whole[0] == r);
    assert(whole.drop_first() =~= rs);
}

/// Folding results never clears a flag that already holds.
pub proof fn lemma_apply_results_monotone(st: Evidence, rs: Seq<(Seq<char>, Seq<char>)>)
    ensures
        st.saw_write ==> apply_results(st, rs).saw_write,
        st.saw_read ==> apply_results(st, rs).saw_read,
    decreases rs.len(),
{
    if rs.len() > 0 {
        lemma_apply_results_monotone(apply_result(st, rs[0]), rs.drop_first());
    }
}

/// The read flag can only be set once the write flag holds.
pub proof fn lemma_apply_results_read_implies_write(st: Evidence, rs: Seq<(Seq<char>, Seq<char>)>)
    requires
        st.saw_read ==> st.saw_write,
    ensures
        apply_results(st, rs).saw_read ==> apply_results(st, rs).saw_write,
    decreases rs.len(),
{
    if rs.len() > 0 {
        lemma_apply_results_read_implies_write(apply_result(st, rs[0]), rs.drop_first());
    }
}

/// The three distinguished tool-result names tell each other apart.
proof fn lemma_result_names_distinct()
    ensures
        "shell"@ != "file_write"@,
        "shell"@ != "file_read"@,
        "file_write"@ != "file_read"@,
{
    reveal_strlit("shell");
    reveal_strlit("file_write");
    reveal_strlit("file_read");
    assert("shell"@.len() == 5);
    assert("file_write"@.len() == 10);
    assert("file_read"@.len() == 9);
}

/// Walk every tool result of a user message, folding each into the
/// evidence carried in `queue`, `saw_write` and `saw_read`.
pub fn apply_user_results(
    content: &str,
    queue: &mut Vec<ShellKind>,
    saw_write: &mut bool,
    saw_read: &mut bool,
)
    ensures
        (Evidence {
            queue: final(queue)@,
            saw_write: *final(saw_write),
            saw_read: *final(saw_read),
        }) == apply_results(
            Evidence {
                queue: old(queue)@,
                saw_write: *old(saw_write),
                saw_read: *old(saw_read),
            },
            results_from(content@, 0),
        ),
{
    proof {
        reveal_strlit(">");
    }
    let marker = "<tool_result name=\"";
    let close = "</tool_result>";
    let n = content.unicode_len();
    let marker_len = marker.unicode_len();
    let close_len = close.unicode_len();
    let ghost target = apply_results(
        Evidence { queue: old(queue)@, saw_write: *old(saw_write), saw_read: *old(saw_read) },
        results_from(content@, 0),
    );
    let mut pos: usize = 0;
    loop
        invariant
            0 <= pos <= n,
            n == content@.len(),
            marker@ == "<tool_result name=\""@,
            close@ == "</tool_result>"@,
            marker_len == "<tool_result name=\""@.len(),
            close_len == "</tool_result>"@.len(),
            apply_results(
                Evidence { queue: queue@, saw_write: *saw_write, saw_read: *saw_read },
                results_from(content@, pos as int),
            ) == target,
            target == apply_results(
                Evidence {
                    queue: old(queue)@,
                    saw_write: *old(saw_write),
                    saw_read: *old(saw_read),
                },
                results_from(content@, 0),
            ),
        decreases n - pos,
    {
        proof {
            reveal_strlit(">");
        }
        let s0 = match str_find(content, marker, pos) {
            None => { return; },
            Some(s0) => s0,
        };
        let name_start = s0 + marker_len;
        let ne = match str_find(content, "\"", name_start) {
            None => { return; },
            Some(ne) => ne,
        };
        let name = content.substring_char(name_start, ne);
        let bs = match str_find(content, ">", ne) {
            None => { return; },
            Some(bs) => bs,
        };
        let body_start = bs + 1;
        let ce = match str_find(content, close, body_start) {
            None => { return; },
            Some(ce) => ce,
        };
        let body = content.substring_char(body_start, ce);
        let ghost st0 = Evidence { queue: queue@, saw_write: *saw_write, saw_read: *saw_read };
        proof {
            let rs = results_from(content@, pos as int);
            assert(rs == seq![(name@, body@)] + results_from(content@, ce + close_len));
            lemma_apply_results_cons(
                st0,
                (name@, body@),
                results_from(content@, ce + close_len),
            );
        }
        let ok = !failure_body(body);
        let k: ShellKind;
        if str_eq(name, "file_write") {
            k = ShellKind::WriteLike;
        } else if str_eq(name, "file_read") {
            k = ShellKind::ReadLike;
        } else if str_eq(name, "shell") {
            if queue.len() > 0 {
                k = queue.remove(0);
                proof {
                    assert(queue@ =~= st0.queue.drop_first());
                }
            } else {
                k = ShellKind::Other;
            }
        } else {
            k = ShellKind::Other;
        }
        if k == ShellKind::WriteLike && ok {
            *saw_write = true;
        } else if k == ShellKind::ReadLike && ok && *saw_write {
            *saw_read = true;
        }
        proof {
            lemma_result_names_distinct();
            let st1 = Evidence { queue: queue@, saw_write: *saw_write, saw_read: *saw_read };
            assert(st1 == apply_result(st0, (name@, body@)));
        }
        pos = ce + close_len;
    }
}

} // verus!
