//! Turning a message into the text that is appended to a note.
use vstd::prelude::*;
use crate::text::{chars_of, push_all, string_of};

verus! {

/// A line as `str::lines` yields it once its `\n` is cut: a trailing `\r`
/// goes too.
pub open spec fn strip_cr(l: Seq<char>) -> Seq<char> {
    if l.len() > 0 && l.last() == '\r' {
        l.drop_last()
    } else {
        l
    }
}

/// Splits `s` at each `\n`: the finished lines, each without its line
/// ending, and the unterminated text after the last `\n`.
pub open spec fn split_scan(s: Seq<char>) -> (Seq<Seq<char>>, Seq<char>)
    decreases s.len(),
{
    if s.len() == 0 {
        (seq![], seq![])
    } else {
        let (done, cur) = split_scan(s.drop_last());
        if s.last() == '\n' {
            (done.push(strip_cr(cur)), seq![])
        } else {
            (done, cur.push(s.last()))
        }
    }
}

/// The lines of `s`, as `str::lines` yields them.
pub open spec fn text_lines(s: Seq<char>) -> Seq<Seq<char>> {
    let (done, cur) = split_scan(s);
    if cur.len() == 0 {
        done
    } else {
        done.push(cur)
    }
}

/// The non-empty lines of `ls`, in order.
pub open spec fn kept(ls: Seq<Seq<char>>) -> Seq<Seq<char>>
    decreases ls.len(),
{
    if ls.len() == 0 {
        seq![]
    } else if ls.last().len() > 0 {
        kept(ls.drop_last()).push(ls.last())
    } else {
        kept(ls.drop_last())
    }
}

/// Each line as a nested bullet `"\t- {line}"`, joined with `\n`.
pub open spec fn bullets(ls: Seq<Seq<char>>) -> Seq<char>
    decreases ls.len(),
{
    if ls.len() == 0 {
        seq![]
    } else if ls.len() == 1 {
        seq!['\t', '-', ' '] + ls[0]
    } else {
        bullets(ls.drop_last()) + seq!['\n', '\t', '-', ' '] + ls.last()
    }
}

/// A daily-note entry: a blank line, the bulleted timestamp, then one nested
/// bullet per non-empty line of the message.
pub open spec fn log_entry(timestamp: Seq<char>, message: Seq<char>) -> Seq<char> {
    seq!['\n', '-', ' '] + timestamp + seq!['\n'] + bullets(kept(text_lines(message)))
}

/// A working-memory entry: the whole message as one bullet.
pub open spec fn flat_entry(message: Seq<char>) -> Seq<char> {
    seq!['-', ' '] + message
}

proof fn lemma_kept_push(ls: Seq<Seq<char>>, l: Seq<char>)
    ensures
        kept(ls.push(l)) == if l.len() > 0 {
            kept(ls).push(l)
        } else {
            kept(ls)
        },
{
    assert(ls.push(l).drop_last() =~= ls);
}

proof fn lemma_bullets_push(ls: Seq<Seq<char>>, l: Seq<char>)
    ensures
        bullets(ls.push(l)) == if ls.len() == 0 {
            seq!['\t', '-', ' '] + l
        } else {
            bullets(ls) + seq!['\n', '\t', '-', ' '] + l
        },
{
    assert(ls.push(l).drop_last() =~= ls);
}

/// Appends one kept line as a bullet to the body built so far.
fn push_bullet(body: &mut Vec<char>, line: &Vec<char>, first: bool)
    ensures
        final(body)@ == old(body)@ + (if first {
            seq!['\t', '-', ' ']
        } else {
            seq!['\n', '\t', '-', ' ']
        }) + line@,
{
    if !first {
        body.push('\n');
    }
    body.push('\t');
    body.push('-');
    body.push(' ');
    push_all(body, line);
    if first {
        assert(final(body)@ =~= old(body)@ + seq!['\t', '-', ' '] + line@);
    } else {
        assert(final(body)@ =~= old(body)@ + seq!['\n', '\t', '-', ' '] + line@);
    }
}

/// The body of a daily-note entry: the non-empty lines of `msg` as bullets.
fn bullet_body(msg: &Vec<char>) -> (r: Vec<char>)
    ensures
        r@ == bullets(kept(text_lines(msg@))),
{
    let mut body: Vec<char> = Vec::new();
    let mut cur: Vec<char> = Vec::new();
    let mut count: usize = 0;
    let mut i: usize = 0;
    assert(msg@.take(0) =~= Seq::<char>::empty());
    while i < msg.len()
        invariant
            i <= msg@.len(),
            count <= i,
            split_scan(msg@.take(i as int)).1 == cur@,
            body@ == bullets(kept(split_scan(msg@.take(i as int)).0)),
            count == kept(split_scan(msg@.take(i as int)).0).len(),
        decreases msg@.len() - i,
    {
        let c = msg[i];
        let ghost prev = msg@.take(i as int);
        assert(msg@.take(i + 1 as int).drop_last() =~= prev);
        if c == '\n' {
            let ghost done = split_scan(prev).0;
            if cur.len() > 0 && cur[cur.len() - 1] == '\r' {
                cur.pop();
            }
            proof {
                lemma_kept_push(done, cur@);
            }
            if cur.len() > 0 {
                proof {
                    lemma_bullets_push(kept(done), cur@);
                }
                push_bullet(&mut body, &cur, count == 0);
                count = count + 1;
            }
            cur = Vec::new();
        } else {
            cur.push(c);
        }
        i += 1;
    }
    assert(msg@.take(i as int) =~= msg@);
    if cur.len() > 0 {
        proof {
            lemma_kept_push(split_scan(msg@).0, cur@);
            lemma_bullets_push(kept(split_scan(msg@).0), cur@);
        }
        push_bullet(&mut body, &cur, count == 0);
    }
    body
}

/// The text appended to a daily note: `"\n- {timestamp}\n"` and then each
/// non-empty line of `message` as `"\t- {line}"`, joined with newlines.
pub fn format_log_entry(timestamp: &str, message: &str) -> (r: String)
    ensures
        r@ == log_entry(timestamp@, message@),
{
    let msg = chars_of(message);
    let body = bullet_body(&msg);
    let mut out: Vec<char> = vec!['\n', '-', ' '];
    push_all(&mut out, &chars_of(timestamp));
    out.push('\n');
    push_all(&mut out, &body);
    assert(out@ =~= log_entry(timestamp@, message@));
    string_of(&out)
}

/// The text appended to the working-memory file: `"- {message}"`, one bullet
/// even where the message spans several lines.
pub fn format_flat_entry(message: &str) -> (r: String)
    ensures
        r@ == flat_entry(message@),
{
    let mut out: Vec<char> = vec!['-', ' '];
    push_all(&mut out, &chars_of(message));
    string_of(&out)
}

} // verus!
