//! Which monitors a run addresses.
//!
//! Monitors named in the configuration take priority. Without them the
//! display utility is asked to list the monitors, and its answer is read
//! here: the first line is a header, and every later line names a monitor
//! with its last word. Lines without a word name nothing.

use vstd::prelude::*;
use vstd::string::StringExecFns;
use crate::config::Configuration;
use crate::error::ErrorKind;

verus! {

/// Whether `c` separates words: the characters with the Unicode property
/// `White_Space`. The line feed is one of them.
pub open spec fn is_space(c: char) -> bool {
    let n = c as u32;
    ||| 0x09 <= n <= 0x0D
    ||| n == 0x20
    ||| n == 0x85
    ||| n == 0xA0
    ||| n == 0x1680
    ||| 0x2000 <= n <= 0x200A
    ||| n == 0x2028
    ||| n == 0x2029
    ||| n == 0x202F
    ||| n == 0x205F
    ||| n == 0x3000
}

/// The position of the first line feed of `text` at or after `from`, or the
/// length of `text` if there is none.
pub open spec fn line_end(text: Seq<char>, from: int) -> int
    decreases text.len() - from,
{
    if from >= text.len() {
        text.len() as int
    } else if text[from] == '\n' {
        from
    } else {
        line_end(text, from + 1)
    }
}

/// The position after the last character of `text[start..end]` that is no
/// space, or `start` if there is none.
pub open spec fn word_end(text: Seq<char>, start: int, end: int) -> int
    decreases end - start,
{
    if end <= start {
        start
    } else if is_space(text[end - 1]) {
        word_end(text, start, end - 1)
    } else {
        end
    }
}

/// The position at which the word that ends before `end` begins, looking no
/// further back than `start`.
pub open spec fn word_start(text: Seq<char>, start: int, end: int) -> int
    decreases end - start,
{
    if end <= start {
        start
    } else if is_space(text[end - 1]) {
        end
    } else {
        word_start(text, start, end - 1)
    }
}

/// The last word of the line `text[start..end]`, if the line has one.
pub open spec fn last_word(text: Seq<char>, start: int, end: int) -> Option<Seq<char>> {
    let stop = word_end(text, start, end);
    if stop <= start {
        None
    } else {
        Some(text.subrange(word_start(text, start, stop), stop))
    }
}

/// The names that the lines of `text` from position `start` on give, where
/// `header` says whether the line at `start` is the header, which names
/// nothing.
pub open spec fn names_from(text: Seq<char>, start: int, header: bool) -> Seq<Seq<char>>
    decreases text.len() - start,
{
    if start >= text.len() || start < 0 {
        Seq::empty()
    } else {
        let end = line_end(text, start);
        let rest = if start <= end < text.len() {
            names_from(text, end + 1, false)
        } else {
            Seq::empty()
        };
        match last_word(text, start, end) {
            Some(name) if !header => seq![name] + rest,
            _ => rest,
        }
    }
}

/// The monitor names that a listing gives.
pub open spec fn monitor_names(listing: Seq<char>) -> Seq<Seq<char>> {
    names_from(listing, 0, true)
}

/// A line ends at or after the position where it starts, within the text,
/// and holds no line feed.
pub proof fn lemma_line_end(text: Seq<char>, from: int)
    requires
        0 <= from <= text.len(),
    ensures
        from <= line_end(text, from) <= text.len(),
        line_end(text, from) < text.len() ==> text[line_end(text, from)] == '\n',
        forall|i: int| from <= i < line_end(text, from) ==> text[i] != '\n',
    decreases text.len() - from,
{
    if from < text.len() && text[from] != '\n' {
        lemma_line_end(text, from + 1);
    }
}

/// Where a line has a last word, that word is not empty and holds no space.
pub proof fn lemma_last_word(text: Seq<char>, start: int, end: int)
    requires
        0 <= start <= end <= text.len(),
    ensures
        start <= word_end(text, start, end) <= end,
        start <= word_start(text, start, word_end(text, start, end)) <= word_end(text, start, end),
        last_word(text, start, end) matches Some(word) ==> {
            &&& word.len() > 0
            &&& forall|i: int| 0 <= i < word.len() ==> !is_space(#[trigger] word[i])
        },
{
    lemma_word_end(text, start, end);
    let stop = word_end(text, start, end);
    lemma_word_start(text, start, stop);
}

proof fn lemma_word_end(text: Seq<char>, start: int, end: int)
    requires
        0 <= start <= end <= text.len(),
    ensures
        start <= word_end(text, start, end) <= end,
        word_end(text, start, end) > start ==> !is_space(text[word_end(text, start, end) - 1]),
    decreases end - start,
{
    if end > start && is_space(text[end - 1]) {
        lemma_word_end(text, start, end - 1);
    }
}

proof fn lemma_word_start(text: Seq<char>, start: int, end: int)
    requires
        0 <= start <= end <= text.len(),
    ensures
        start <= word_start(text, start, end) <= end,
        forall|i: int| word_start(text, start, end) <= i < end ==> !is_space(text[i]),
        end > start && !is_space(text[end - 1]) ==> word_start(text, start, end) < end,
    decreases end - start,
{
    if end > start && !is_space(text[end - 1]) {
        lemma_word_start(text, start, end - 1);
    }
}

/// Every name that a listing gives is a word: it is not empty and holds no
/// space.
pub proof fn monitor_names_are_words(listing: Seq<char>)
    ensures
        forall|k: int|
            0 <= k < monitor_names(listing).len() ==> {
                let name = #[trigger] monitor_names(listing)[k];
                &&& name.len() > 0
                &&& forall|i: int| 0 <= i < name.len() ==> !is_space(#[trigger] name[i])
            },
{
    lemma_names_are_words(listing, 0, true);
}

proof fn lemma_names_are_words(text: Seq<char>, start: int, header: bool)
    requires
        0 <= start,
    ensures
        forall|k: int|
            0 <= k < names_from(text, start, header).len() ==> {
                let name = #[trigger] names_from(text, start, header)[k];
                &&& name.len() > 0
                &&& forall|i: int| 0 <= i < name.len() ==> !is_space(#[trigger] name[i])
            },
    decreases text.len() - start,
{
    if start < text.len() {
        lemma_line_end(text, start);
        let end = line_end(text, start);
        lemma_last_word(text, start, end);
        let rest = if end < text.len() {
            lemma_names_are_words(text, end + 1, false);
            names_from(text, end + 1, false)
        } else {
            Seq::empty()
        };
        let all = names_from(text, start, header);
        match last_word(text, start, end) {
            Some(name) if !header => {
                assert forall|k: int| 0 <= k < all.len() implies {
                    let n = #[trigger] all[k];
                    &&& n.len() > 0
                    &&& forall|i: int| 0 <= i < n.len() ==> !is_space(#[trigger] n[i])
                } by {
                    if k > 0 {
                        assert(all[k] == rest[k - 1]);
                    }
                }
            },
            _ => {},
        }
    }
}

/// A listing of the header alone, or of nothing, names no monitor.
pub proof fn header_names_nothing(listing: Seq<char>)
    requires
        forall|i: int| 0 <= i < listing.len() - 1 ==> listing[i] != '\n',
    ensures
        monitor_names(listing).len() == 0,
{
    if listing.len() > 0 {
        lemma_line_end(listing, 0);
        let end = line_end(listing, 0);
        if end < listing.len() {
            assert(names_from(listing, end + 1, false) =~= Seq::empty());
        }
    }
}

/// Two readings of the same listing that both meet the parser's contract
/// give the same names in the same order.
pub proof fn parse_is_deterministic(first: Vec<String>, second: Vec<String>, listing: Seq<char>)
    requires
        first.deep_view() == monitor_names(listing),
        second.deep_view() == monitor_names(listing),
    ensures
        first.len() == second.len(),
        forall|i: int| 0 <= i < first.len() ==> (#[trigger] first[i])@ == second[i]@,
{
    assert(first.deep_view().len() == first.len());
    assert(second.deep_view().len() == second.len());
    assert forall|i: int| 0 <= i < first.len() implies (#[trigger] first[i])@ == second[i]@ by {
        assert(first.deep_view()[i] == first[i]@);
        assert(second.deep_view()[i] == second[i]@);
    }
}

/// Whether `c` separates words.
pub fn is_space_char(c: char) -> (space: bool)
    ensures
        space == is_space(c),
{
    let n: u32 = c as u32;
    (0x09 <= n && n <= 0x0D) || n == 0x20 || n == 0x85 || n == 0xA0 || n == 0x1680 || (0x2000 <= n
        && n <= 0x200A) || n == 0x2028 || n == 0x2029 || n == 0x202F || n == 0x205F || n == 0x3000
}

/// The characters of `text`, one by one.
fn characters(text: &str) -> (chars: Vec<char>)
    ensures
        chars@ == text@,
{
    let mut chars: Vec<char> = Vec::new();
    for c in it: text.chars()
        invariant
            it.seq() == text@,
            chars@ == text@.take(it.index()),
    {
        chars.push(c);
        assert(chars@ =~= text@.take(it.index() + 1));
    }
    assert(text@.take(text@.len() as int) =~= text@);
    chars
}

/// Reads the listing of the display utility: the last word of every line
/// after the first, in order.
pub fn parse_monitor_listing(listing: &str) -> (names: Vec<String>)
    ensures
        names.deep_view() == monitor_names(listing@),
{
    let chars: Vec<char> = characters(listing);
    let len: usize = chars.len();
    let mut names: Vec<String> = Vec::new();
    let mut start: usize = 0;
    let mut header: bool = true;
    assert(names.deep_view() =~= Seq::<Seq<char>>::empty());
    while start < len
        invariant
            chars@ == listing@,
            len == chars.len(),
            start <= len,
            names.deep_view() + names_from(chars@, start as int, header) == monitor_names(
                listing@,
            ),
        decreases len - start,
    {
        let mut end: usize = start;
        while end < len && chars[end] != '\n'
            invariant
                len == chars.len(),
                start <= end <= len,
                line_end(chars@, end as int) == line_end(chars@, start as int),
            decreases len - end,
        {
            end = end + 1;
        }
        let ghost before = names.deep_view();
        let ghost rest = if end < len {
            names_from(chars@, end + 1, false)
        } else {
            Seq::empty()
        };
        proof {
            lemma_line_end(chars@, start as int);
        }
        if !header {
            let mut stop: usize = end;
            while stop > start && is_space_char(chars[stop - 1])
                invariant
                    len == chars.len(),
                    start <= stop <= end <= len,
                    word_end(chars@, start as int, stop as int) == word_end(
                        chars@,
                        start as int,
                        end as int,
                    ),
                decreases stop,
            {
                stop = stop - 1;
            }
            if stop > start {
                let mut begin: usize = stop;
                while begin > start && !is_space_char(chars[begin - 1])
                    invariant
                        len == chars.len(),
                        start <= begin <= stop <= len,
                        word_start(chars@, start as int, begin as int) == word_start(
                            chars@,
                            start as int,
                            stop as int,
                        ),
                    decreases begin,
                {
                    begin = begin - 1;
                }
                let name: String = String::from_str(listing.substring_char(begin, stop));
                assert(last_word(chars@, start as int, end as int) == Some(name@));
                names.push(name);
                assert(names.deep_view() =~= before + seq![name@]);
                assert(before + (seq![name@] + rest) =~= (before + seq![name@]) + rest);
            } else {
                assert(last_word(chars@, start as int, end as int) is None);
            }
        }
        header = false;
        if end < len {
            start = end + 1;
        } else {
            assert(rest =~= names_from(chars@, len as int, false));
            start = len;
        }
    }
    assert(names.deep_view() + Seq::<Seq<char>>::empty() =~= names.deep_view());
    names
}

/// A copy of `names`.
fn copy_names(names: &Vec<String>) -> (copy: Vec<String>)
    ensures
        copy.deep_view() == names.deep_view(),
{
    let mut copy: Vec<String> = Vec::new();
    let mut i: usize = 0;
    while i < names.len()
        invariant
            i <= names.len(),
            copy.len() == i,
            forall|j: int| 0 <= j < i ==> (#[trigger] copy[j])@ == names[j]@,
        decreases names.len() - i,
    {
        copy.push(names[i].clone());
        i = i + 1;
    }
    assert(copy.deep_view() =~= names.deep_view());
    copy
}

/// Whether the display utility has to be asked for the monitors: only when
/// the configuration names none.
pub fn needs_enumeration(cfg: &Configuration) -> (needed: bool)
    ensures
        needed == (cfg.monitor_names is None),
{
    cfg.monitor_names.is_none()
}

/// The monitors that the configuration names, if it names any, and else the
/// ones that `listing` gives.
pub open spec fn resolved_names(configured: Option<Seq<Seq<char>>>, listing: Seq<char>) -> Seq<
    Seq<char>,
> {
    match configured {
        Some(names) => names,
        None => monitor_names(listing),
    }
}

/// The configured monitor names as plain values.
pub open spec fn configured_names(cfg: Configuration) -> Option<Seq<Seq<char>>> {
    match cfg.monitor_names {
        Some(names) => Some(names.deep_view()),
        None => None,
    }
}

/// The monitors of the run. Names in the configuration are taken as they
/// are, even if the list is empty, and `listing` is then not read. Without
/// them the names come from `listing`, and a listing that gives none is an
/// error.
pub fn resolve_monitors(cfg: &Configuration, listing: &str) -> (monitors: Result<
    Vec<String>,
    ErrorKind,
>)
    ensures
        monitors is Err <==> cfg.monitor_names is None && monitor_names(listing@).len() == 0,
        monitors matches Ok(names) ==> names.deep_view() == resolved_names(
            configured_names(*cfg),
            listing@,
        ),
        monitors matches Err(kind) ==> kind == ErrorKind::NoMonitorsFound,
{
    match &cfg.monitor_names {
        Some(configured) => Ok(copy_names(configured)),
        None => {
            let names: Vec<String> = parse_monitor_listing(listing);
            assert(names.deep_view().len() == names.len());
            if names.len() == 0 {
                Err(ErrorKind::NoMonitorsFound)
            } else {
                Ok(names)
            }
        },
    }
}

} // verus!
