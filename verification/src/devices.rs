//! The devices that the appliance has seen on its networks.

use crate::appliance::{call, call_of, get, get_of, CALL_TIMEOUT_SECONDS};
use crate::db::ApiInfo;
use crate::http_client::{Method, PreparedRequest};
use vstd::prelude::*;

verus! {

/// One entry of the appliance's address resolution table.
#[derive(Debug, PartialEq, Eq)]
pub struct Device {
    pub mac: String,
    pub ip: String,
    pub intf: String,
    pub expired: bool,
    pub expires: i32,
    pub permanent: bool,
    pub device_type: String,
    pub manufacturer: String,
    pub hostname: String,
    pub intf_description: String,
}

/// The addresses that a flush of the table removed.
#[derive(Debug, PartialEq, Eq)]
pub struct FlushArpResponse {
    pub deleted: Vec<String>,
}

impl View for FlushArpResponse {
    type V = Seq<Seq<char>>;

    open spec fn view(&self) -> Seq<Seq<char>> {
        self.deleted.deep_view()
    }
}

/// Reads the address resolution table.
pub fn get_devices_call(api_info: &ApiInfo) -> (request: PreparedRequest)
    ensures
        request@ == get_of(api_info@, "/api/diagnostics/interface/getArp"@),
{
    get(api_info, "/api/diagnostics/interface/getArp")
}

/// Flushes the address resolution table. The request has no body.
pub fn flush_arp_table_call(api_info: &ApiInfo) -> (request: PreparedRequest)
    ensures
        request@ == call_of(
            api_info@,
            Method::Post,
            "/api/diagnostics/interface/flushArp"@,
            None,
            None,
            CALL_TIMEOUT_SECONDS,
        ),
{
    call(
        api_info,
        Method::Post,
        "/api/diagnostics/interface/flushArp",
        None,
        None,
        CALL_TIMEOUT_SECONDS,
    )
}

/// White space: the characters that part the words of a line.
pub open spec fn is_space(c: char) -> bool {
    let code = c as u32;
    ||| 0x09 <= code <= 0x0d
    ||| code == 0x20
    ||| code == 0x85
    ||| code == 0xa0
    ||| code == 0x1680
    ||| 0x2000 <= code <= 0x200a
    ||| code == 0x2028
    ||| code == 0x2029
    ||| code == 0x202f
    ||| code == 0x205f
    ||| code == 0x3000
}

/// Whether a character is white space.
pub fn space(c: char) -> (r: bool)
    ensures
        r == is_space(c),
{
    let code: u32 = c as u32;
    (0x09 <= code && code <= 0x0d) || code == 0x20 || code == 0x85 || code == 0xa0 || code
        == 0x1680 || (0x2000 <= code && code <= 0x200a) || code == 0x2028 || code == 0x2029
        || code == 0x202f || code == 0x205f || code == 0x3000
}

/// The first place from `from` on, before `limit`, at which a line ends;
/// `limit` where none does.
pub open spec fn line_end(text: Seq<char>, from: int, limit: int) -> int
    decreases limit - from,
{
    if from >= limit || text[from] == '\n' {
        from
    } else {
        line_end(text, from + 1, limit)
    }
}

/// The first place from `from` on, before `limit`, at which white space
/// stands (`spaces`) or something else does (`!spaces`); `limit` where
/// there is no such place.
pub open spec fn next_where(text: Seq<char>, from: int, limit: int, spaces: bool) -> int
    decreases limit - from,
{
    if from >= limit || is_space(text[from]) == spaces {
        from
    } else {
        next_where(text, from + 1, limit, spaces)
    }
}

/// The first words of the lines of `text` from `from` on, for the lines
/// that have a word.
pub open spec fn first_words(text: Seq<char>, from: int) -> Seq<Seq<char>>
    decreases text.len() - from,
{
    if from < 0 || from >= text.len() {
        Seq::empty()
    } else {
        let end = line_end(text, from, text.len() as int);
        let start = next_where(text, from, end, false);
        let stop = next_where(text, start, end, true);
        let word = if start < stop {
            seq![text.subrange(start, stop)]
        } else {
            Seq::empty()
        };
        proof {
            lemma_line_end_bounds(text, from, text.len() as int);
        }
        if end < text.len() {
            word + first_words(text, end + 1)
        } else {
            word
        }
    }
}

/// A line ends at or after the place it is looked for from.
pub proof fn lemma_line_end_bounds(text: Seq<char>, from: int, limit: int)
    requires
        from <= limit,
    ensures
        from <= line_end(text, from, limit) <= limit,
    decreases limit - from,
{
    if !(from >= limit || text[from] == '\n') {
        lemma_line_end_bounds(text, from + 1, limit);
    }
}

/// The addresses that a flush of the table removed, as its answer lists
/// them: of each line the first word.
pub fn parse_flushed(body: &str) -> (response: FlushArpResponse)
    ensures
        response@ == first_words(body@, 0),
{
    let mut text: Vec<char> = Vec::new();
    for c in it: body.chars()
        invariant
            it.seq() == body@,
            text@ == body@.take(it.index() as int),
    {
        text.push(c);
        assert(text@ =~= body@.take(it.index() + 1));
    }
    assert(text@ =~= body@);
    let n = text.len();
    let mut deleted: Vec<String> = Vec::new();
    let mut from: usize = 0;
    while from < n
        invariant
            n == text.len(),
            text@ == body@,
            from <= n,
            first_words(body@, 0) == deleted.deep_view() + first_words(body@, from as int),
        decreases n - from,
    {
        let mut end: usize = from;
        while end < n && text[end] != '\n'
            invariant
                n == text.len(),
                from <= end <= n,
                line_end(text@, from as int, n as int) == line_end(text@, end as int, n as int),
            decreases n - end,
        {
            end += 1;
        }
        let mut start: usize = from;
        while start < end && space(text[start])
            invariant
                n == text.len(),
                from <= start <= end <= n,
                next_where(text@, from as int, end as int, false) == next_where(
                    text@,
                    start as int,
                    end as int,
                    false,
                ),
            decreases end - start,
        {
            start += 1;
        }
        let mut stop: usize = start;
        let mut word = String::new();
        while stop < end && !space(text[stop])
            invariant
                n == text.len(),
                start <= stop <= end <= n,
                next_where(text@, start as int, end as int, true) == next_where(
                    text@,
                    stop as int,
                    end as int,
                    true,
                ),
                word@ == text@.subrange(start as int, stop as int),
            decreases end - stop,
        {
            word.push(text[stop]);
            assert(word@ =~= text@.subrange(start as int, stop + 1));
            stop += 1;
        }
        let ghost listed = deleted.deep_view();
        if start < stop {
            deleted.push(word);
            assert(deleted.deep_view() =~= listed + seq![text@.subrange(start as int, stop as int)]);
        } else {
            assert(deleted.deep_view() =~= listed + Seq::<Seq<char>>::empty());
        }
        assert(first_words(body@, end + 1) =~= if end < n {
            first_words(body@, end + 1)
        } else {
            Seq::empty()
        });
        assert(first_words(body@, 0) =~= deleted.deep_view() + first_words(body@, end + 1));
        if end < n {
            from = end + 1;
        } else {
            from = n;
        }
    }
    assert(deleted.deep_view() + first_words(body@, n as int) =~= deleted.deep_view());
    FlushArpResponse { deleted }
}

} // verus!
