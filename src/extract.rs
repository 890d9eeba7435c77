use vstd::prelude::*;

verus! {

/// The tag that opens a command block in a model reply.
pub open spec fn open_marker() -> Seq<char> {
    "<command>"@
}

/// The tag that closes a command block in a model reply.
pub open spec fn close_marker() -> Seq<char> {
    "</command>"@
}

/// `pat` stands in `s` starting at index `i`.
pub open spec fn occurs_at(s: Seq<char>, pat: Seq<char>, i: int) -> bool {
    0 <= i && i + pat.len() <= s.len() && s.subrange(i, i + pat.len()) == pat
}

/// The first index at or after `from` where `pat` stands in `s`.
pub open spec fn find_from(s: Seq<char>, pat: Seq<char>, from: int) -> Option<int>
    decreases s.len() + 1 - from,
{
    if from < 0 || from + pat.len() > s.len() {
        None
    } else if occurs_at(s, pat, from) {
        Some(from)
    } else {
        find_from(s, pat, from + 1)
    }
}

/// The command that a reply asks to run: the text strictly between the first
/// opening marker and the first closing marker after it. A reply with no
/// complete block, or whose first block is empty, is a final answer.
pub open spec fn command_of(reply: Seq<char>) -> Option<Seq<char>> {
    match find_from(reply, open_marker(), 0) {
        None => None,
        Some(i) => {
            let start = i + open_marker().len();
            match find_from(reply, close_marker(), start) {
                None => None,
                Some(j) => if j > start {
                    Some(reply.subrange(start, j))
                } else {
                    None
                },
            }
        },
    }
}

/// What `find_from` returns is an occurrence at or after `from`.
pub proof fn lemma_find_from_found(s: Seq<char>, pat: Seq<char>, from: int, i: int)
    requires
        find_from(s, pat, from) == Some(i),
    ensures
        from <= i,
        occurs_at(s, pat, i),
    decreases s.len() + 1 - from,
{
    if from < 0 || from + pat.len() > s.len() {
    } else if occurs_at(s, pat, from) {
    } else {
        lemma_find_from_found(s, pat, from + 1, i);
    }
}

/// When `find_from` finds nothing, `pat` stands nowhere at or after `from`.
pub proof fn lemma_find_from_none(s: Seq<char>, pat: Seq<char>, from: int, j: int)
    requires
        0 <= from <= j,
        find_from(s, pat, from) is None,
    ensures
        !occurs_at(s, pat, j),
    decreases j - from,
{
    if from + pat.len() > s.len() {
    } else if j > from {
        lemma_find_from_none(s, pat, from + 1, j);
    }
}

/// An occurrence with none before it, from `from` on, is what `find_from` finds.
pub proof fn lemma_find_from_first(s: Seq<char>, pat: Seq<char>, from: int, i: int)
    requires
        0 <= from <= i,
        occurs_at(s, pat, i),
        forall|j: int| from <= j < i ==> !occurs_at(s, pat, j),
    ensures
        find_from(s, pat, from) == Some(i),
    decreases i - from,
{
    if from < i {
        lemma_find_from_first(s, pat, from + 1, i);
    }
}

/// No proper suffix of `pat` starts as `pat` does: its first character does
/// not come again.
pub open spec fn first_char_unique(pat: Seq<char>) -> bool {
    pat.len() > 0 && forall|k: int| 0 < k < pat.len() ==> #[trigger] pat[k] != pat[0]
}

/// A pattern whose first character does not come again, placed at `at` after a
/// stretch that does not hold it, is first found at `at`.
pub proof fn lemma_first_after(s: Seq<char>, pat: Seq<char>, from: int, at: int)
    requires
        0 <= from <= at,
        occurs_at(s, pat, at),
        find_from(s.subrange(from, at), pat, 0) is None,
        first_char_unique(pat),
    ensures
        find_from(s, pat, from) == Some(at),
{
    let gap = s.subrange(from, at);
    assert forall|j: int| from <= j < at implies !occurs_at(s, pat, j) by {
        if j + pat.len() <= at {
            lemma_find_from_none(gap, pat, 0, j - from);
            assert(gap.subrange(j - from, j - from + pat.len()) =~= s.subrange(j, j + pat.len()));
        } else if occurs_at(s, pat, j) {
            let k = at - j;
            assert(s.subrange(j, j + pat.len())[k] == s[at]);
            assert(s.subrange(at, at + pat.len())[0] == s[at]);
        }
    }
    lemma_find_from_first(s, pat, from, at);
}

/// A reply whose first opening marker starts a block with a non-empty body
/// and no closing marker inside it asks for exactly that body, whatever
/// follows the block, more blocks included.
pub proof fn lemma_first_block_is_command(
    prefix: Seq<char>,
    body: Seq<char>,
    rest: Seq<char>,
)
    requires
        find_from(prefix, open_marker(), 0) is None,
        find_from(body, close_marker(), 0) is None,
        body.len() > 0,
    ensures
        command_of(prefix + open_marker() + body + close_marker() + rest) == Some(body),
{
    reveal_strlit("<command>");
    reveal_strlit("</command>");
    let o = open_marker();
    let c = close_marker();
    let reply = prefix + o + body + c + rest;
    let start: int = prefix.len() as int + o.len() as int;
    let end: int = start + body.len() as int;
    assert(first_char_unique(o));
    assert(first_char_unique(c));
    assert(reply.subrange(prefix.len() as int, start) =~= o);
    assert(reply.subrange(0, prefix.len() as int) =~= prefix);
    lemma_first_after(reply, o, 0, prefix.len() as int);
    assert(reply.subrange(end, end + c.len()) =~= c);
    assert(reply.subrange(start, end) =~= body);
    lemma_first_after(reply, c, start, end);
}

/// Of two blocks, the first is the command.
pub proof fn lemma_first_of_two_blocks(
    prefix: Seq<char>,
    first: Seq<char>,
    middle: Seq<char>,
    second: Seq<char>,
    rest: Seq<char>,
)
    requires
        find_from(prefix, open_marker(), 0) is None,
        find_from(first, close_marker(), 0) is None,
        first.len() > 0,
    ensures
        command_of(
            prefix + open_marker() + first + close_marker() + middle + open_marker() + second
                + close_marker() + rest,
        ) == Some(first),
{
    let tail = middle + open_marker() + second + close_marker() + rest;
    lemma_first_block_is_command(prefix, first, tail);
    assert(prefix + open_marker() + first + close_marker() + middle + open_marker() + second
        + close_marker() + rest =~= prefix + open_marker() + first + close_marker() + tail);
}

/// A reply with no opening marker is a final answer.
pub proof fn lemma_no_marker_no_command(reply: Seq<char>)
    requires
        find_from(reply, open_marker(), 0) is None,
    ensures
        command_of(reply) is None,
{
}

/// The characters of a string, in order.
fn chars_of(s: &str) -> (r: Vec<char>)
    ensures
        r@ == s@,
{
    let mut r: Vec<char> = Vec::new();
    let n = s.unicode_len();
    let mut i: usize = 0;
    while i < n
        invariant
            n == s@.len(),
            i <= n,
            r@ == s@.subrange(0, i as int),
        decreases n - i,
    {
        r.push(s.get_char(i));
        i = i + 1;
        assert(r@ =~= s@.subrange(0, i as int));
    }
    assert(s@.subrange(0, n as int) =~= s@);
    r
}

/// Whether `pat` stands in `s` at index `i`.
fn matches_at(s: &Vec<char>, pat: &Vec<char>, i: usize) -> (r: bool)
    ensures
        r == occurs_at(s@, pat@, i as int),
{
    if i > s.len() || pat.len() > s.len() - i {
        return false;
    }
    let mut k: usize = 0;
    while k < pat.len()
        invariant
            i + pat@.len() <= s.len(),
            k <= pat@.len(),
            forall|t: int| 0 <= t < k ==> s@[i + t] == pat@[t],
        decreases pat@.len() - k,
    {
        if s[i + k] != pat[k] {
            assert(s@.subrange(i as int, i + pat@.len())[k as int] != pat@[k as int]);
            return false;
        }
        k = k + 1;
    }
    assert(s@.subrange(i as int, i + pat@.len()) =~= pat@);
    true
}

/// The first index at or after `from` where `pat` stands in `s`.
fn find(s: &Vec<char>, pat: &Vec<char>, from: usize) -> (r: Option<usize>)
    requires
        pat@.len() > 0,
    ensures
        r matches Some(i) ==> find_from(s@, pat@, from as int) == Some(i as int),
        r is None ==> find_from(s@, pat@, from as int) is None,
{
    let mut i = from;
    while i <= s.len() && pat.len() <= s.len() - i
        invariant
            from <= i,
            pat@.len() > 0,
            find_from(s@, pat@, from as int) == find_from(s@, pat@, i as int),
        decreases s@.len() + 1 - i,
    {
        if matches_at(s, pat, i) {
            return Some(i);
        }
        i = i + 1;
    }
    None
}

/// Reads the command out of a model reply, or `None` when the reply is a
/// final answer.
pub fn extract_command(reply: &str) -> (r: Option<String>)
    ensures
        r matches Some(c) ==> command_of(reply@) == Some(c@),
        r is None ==> command_of(reply@) is None,
{
    proof {
        reveal_strlit("<command>");
        reveal_strlit("</command>");
    }
    let text = chars_of(reply);
    assert(open_marker().len() == 9);
    let open = chars_of("<command>");
    let close = chars_of("</command>");
    match find(&text, &open, 0) {
        None => None,
        Some(i) => {
            proof {
                lemma_find_from_found(text@, open@, 0, i as int);
                assert(i + open@.len() <= text.len());
            }
            let start = i + open.len();
            match find(&text, &close, start) {
                None => None,
                Some(j) => {
                    proof {
                        lemma_find_from_found(text@, close@, start as int, j as int);
                    }
                    if j > start {
                        Some(String::from_str(reply.substring_char(start, j)))
                    } else {
                        None
                    }
                },
            }
        },
    }
}

} // verus!
