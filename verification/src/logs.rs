//! Plugin logs: the entries, their levels, and the pager that picks one page
//! of entries out of a log file.
//!
//! A log file holds one entry per line. The reader of the file parses each
//! line and offers the result to a [`PageReader`], which keeps the entries
//! of the page asked for and says when it has them all, so that a long file
//! need not be read to its end.

use crate::text::{copy_opt_text, opt_text};
use vstd::prelude::*;
use vstd::string::StrSliceExecFns;

verus! {

/// The page size used where a request names none.
pub const DEFAULT_PAGE_SIZE: usize = 100;

/// The number of entries on a page where the request does not say.
pub fn default_page_size() -> (n: usize)
    ensures
        n == DEFAULT_PAGE_SIZE,
{
    DEFAULT_PAGE_SIZE
}

/// The severity of a log entry.
#[derive(Clone, Copy, Debug, PartialEq, Eq, Structural)]
pub enum LogLevel {
    Trace,
    Debug,
    Info,
    Warn,
    Error,
}

/// The lower-case form of an ASCII letter; any other character is itself.
pub open spec fn ascii_lower(c: char) -> char {
    if 65 <= c as u32 <= 90 {
        ((c as u32 + 32) as u8) as char
    } else {
        c
    }
}

/// Whether `text` spells `name`, where upper and lower case count as equal.
pub open spec fn spells(text: Seq<char>, name: Seq<char>) -> bool {
    &&& text.len() == name.len()
    &&& forall|i: int| 0 <= i < text.len() ==> ascii_lower(#[trigger] text[i]) == name[i]
}

/// The level that `text` names, if it names one.
pub open spec fn level_named(text: Seq<char>) -> Option<LogLevel> {
    if spells(text, "trace"@) {
        Some(LogLevel::Trace)
    } else if spells(text, "debug"@) {
        Some(LogLevel::Debug)
    } else if spells(text, "info"@) {
        Some(LogLevel::Info)
    } else if spells(text, "warn"@) {
        Some(LogLevel::Warn)
    } else if spells(text, "error"@) {
        Some(LogLevel::Error)
    } else {
        None
    }
}

fn lower(c: char) -> (r: char)
    ensures
        r == ascii_lower(c),
{
    let n = c as u32;
    if 65 <= n && n <= 90 {
        ((n + 32) as u8) as char
    } else {
        c
    }
}

fn spells_name(text: &str, name: &str) -> (b: bool)
    ensures
        b == spells(text@, name@),
{
    let n = name.unicode_len();
    if text.unicode_len() != n {
        return false;
    }
    let mut i: usize = 0;
    while i < n
        invariant
            i <= n,
            n == name@.len(),
            n == text@.len(),
            forall|j: int| 0 <= j < i ==> ascii_lower(#[trigger] text@[j]) == name@[j],
        decreases n - i,
    {
        if lower(text.get_char(i)) != name.get_char(i) {
            return false;
        }
        i = i + 1;
    }
    true
}

impl LogLevel {
    /// Reads a level from its name, in any mix of upper and lower case.
    pub fn from_str(text: &str) -> (level: Option<LogLevel>)
        ensures
            level == level_named(text@),
    {
        if spells_name(text, "trace") {
            Some(LogLevel::Trace)
        } else if spells_name(text, "debug") {
            Some(LogLevel::Debug)
        } else if spells_name(text, "info") {
            Some(LogLevel::Info)
        } else if spells_name(text, "warn") {
            Some(LogLevel::Warn)
        } else if spells_name(text, "error") {
            Some(LogLevel::Error)
        } else {
            None
        }
    }
}

/// One line of a plugin's log. `timestamp` is RFC 3339 text.
#[derive(Debug, PartialEq, Eq)]
pub struct LogEntry {
    pub timestamp: String,
    pub level: LogLevel,
    pub message: String,
    pub plugin: Option<String>,
    pub error: Option<String>,
}

pub struct LogEntryView {
    pub timestamp: Seq<char>,
    pub level: LogLevel,
    pub message: Seq<char>,
    pub plugin: Option<Seq<char>>,
    pub error: Option<Seq<char>>,
}

impl View for LogEntry {
    type V = LogEntryView;

    open spec fn view(&self) -> LogEntryView {
        LogEntryView {
            timestamp: self.timestamp@,
            level: self.level,
            message: self.message@,
            plugin: opt_text(self.plugin),
            error: opt_text(self.error),
        }
    }
}

impl Clone for LogEntry {
    fn clone(&self) -> (r: Self)
        ensures
            r@ == self@,
    {
        LogEntry {
            timestamp: self.timestamp.clone(),
            level: self.level,
            message: self.message.clone(),
            plugin: copy_opt_text(&self.plugin),
            error: copy_opt_text(&self.error),
        }
    }
}

/// The view of a parsed line: the entry, or nothing for a line that did not
/// parse.
pub open spec fn line_view(line: Option<LogEntry>) -> Option<LogEntryView> {
    match line {
        Some(entry) => Some(entry@),
        None => None,
    }
}

/// The views of the parsed lines of a file.
pub open spec fn lines_view(lines: Seq<Option<LogEntry>>) -> Seq<Option<LogEntryView>> {
    lines.map_values(|line: Option<LogEntry>| line_view(line))
}

/// The views of a list of entries.
pub open spec fn entries_view(entries: Seq<LogEntry>) -> Seq<LogEntryView> {
    entries.map_values(|entry: LogEntry| entry@)
}

/// Whether a parsed line counts: it parsed, and it has the level asked for
/// where one was asked for.
pub open spec fn counts(line: Option<LogEntryView>, filter: Option<LogLevel>) -> bool {
    match line {
        Some(entry) => filter is None || filter == Some(entry.level),
        None => false,
    }
}

/// The entries of a file that count, in file order.
pub open spec fn matching(lines: Seq<Option<LogEntryView>>, filter: Option<LogLevel>) -> Seq<
    LogEntryView,
>
    decreases lines.len(),
{
    if lines.len() == 0 {
        Seq::empty()
    } else if counts(lines.last(), filter) {
        matching(lines.drop_last(), filter).push(lines.last()->Some_0)
    } else {
        matching(lines.drop_last(), filter)
    }
}

/// The smaller of two numbers.
pub open spec fn at_most(a: int, b: int) -> int {
    if a <= b {
        a
    } else {
        b
    }
}

/// Page number `page` of the entries that count, with `page_size` entries
/// to the page: the first `page * page_size` of them are skipped and the
/// next `page_size` are taken, as far as there are that many.
pub open spec fn page_of(
    lines: Seq<Option<LogEntryView>>,
    filter: Option<LogLevel>,
    page: nat,
    page_size: nat,
) -> Seq<LogEntryView> {
    let all = matching(lines, filter);
    let from = at_most((page * page_size) as int, all.len() as int);
    let to = at_most(from + page_size, all.len() as int);
    all.subrange(from, to)
}

/// How far a reader has come: the counting entries it still passes over,
/// the room left on its page, and the entries it has taken.
pub struct PageProgress {
    pub skip_left: nat,
    pub take_left: nat,
    pub taken: Seq<LogEntryView>,
}

impl PageProgress {
    /// The progress of a reader for page number `page` before any line.
    pub open spec fn start(page: nat, page_size: nat) -> PageProgress {
        PageProgress { skip_left: page * page_size, take_left: page_size, taken: Seq::empty() }
    }

    /// The progress after a series of lines, offered in order.
    pub open spec fn after_lines(self, lines: Seq<Option<LogEntryView>>, filter: Option<LogLevel>)
        -> PageProgress
        decreases lines.len(),
    {
        if lines.len() == 0 {
            self
        } else {
            self.after_lines(lines.drop_last(), filter).offered(lines.last(), filter)
        }
    }

    /// The progress after one more line.
    ///
    /// A line that does not count changes nothing. One that counts is
    /// passed over while entries are still to be skipped, and taken onto
    /// the page while the page has room.
    pub open spec fn offered(self, line: Option<LogEntryView>, filter: Option<LogLevel>)
        -> PageProgress {
        if !counts(line, filter) {
            self
        } else if self.skip_left > 0 {
            PageProgress { skip_left: (self.skip_left - 1) as nat, ..self }
        } else if self.take_left > 0 {
            PageProgress {
                take_left: (self.take_left - 1) as nat,
                taken: self.taken.push(line->Some_0),
                ..self
            }
        } else {
            self
        }
    }
}

/// Picks one page of entries out of the lines offered to it, one by one.
pub struct PageReader {
    filter: Option<LogLevel>,
    page_size: usize,
    pages_to_skip: usize,
    left_on_skipped_page: usize,
    entries: Vec<LogEntry>,
}

impl PageReader {
    /// The counters are in step with each other.
    pub closed spec fn wf(&self) -> bool {
        &&& self.entries@.len() <= self.page_size
        &&& self.pages_to_skip > 0 ==> 1 <= self.left_on_skipped_page <= self.page_size
            && self.entries@.len() == 0
    }

    /// The level that entries must have, if any.
    pub closed spec fn filter(&self) -> Option<LogLevel> {
        self.filter
    }

    /// How many counting entries are still to be passed over.
    pub closed spec fn skip_left(&self) -> nat {
        if self.pages_to_skip > 0 {
            ((self.pages_to_skip - 1) * self.page_size + self.left_on_skipped_page) as nat
        } else {
            0
        }
    }

    /// How many entries the page still has room for.
    pub closed spec fn take_left(&self) -> nat {
        (self.page_size - self.entries@.len()) as nat
    }

    /// The entries taken so far.
    pub closed spec fn taken(&self) -> Seq<LogEntryView> {
        entries_view(self.entries@)
    }

    /// How far the reader has come.
    pub open spec fn progress(&self) -> PageProgress {
        PageProgress {
            skip_left: self.skip_left(),
            take_left: self.take_left(),
            taken: self.taken(),
        }
    }

    /// A reader for page number `page`, counting from zero, of the entries
    /// with the level `filter` (of all entries if `filter` is `None`).
    pub fn new(filter: Option<LogLevel>, page: usize, page_size: usize) -> (reader: Self)
        ensures
            reader.wf(),
            reader.filter() == filter,
            reader.progress() == PageProgress::start(page as nat, page_size as nat),
    {
        let reader = PageReader {
            filter,
            page_size,
            pages_to_skip: if page_size == 0 {
                0
            } else {
                page
            },
            left_on_skipped_page: page_size,
            entries: Vec::new(),
        };
        proof {
            assert(reader.taken() =~= Seq::<LogEntryView>::empty());
            if page_size == 0 {
                assert(page * page_size == 0) by (nonlinear_arith)
                    requires
                        page_size == 0,
                ;
            } else if page > 0 {
                assert((page - 1) * page_size + page_size == page * page_size)
                    by (nonlinear_arith);
            } else {
                assert(page * page_size == 0) by (nonlinear_arith)
                    requires
                        page == 0,
                ;
            }
        }
        reader
    }

    /// Whether the page is full, so that no further line can change it.
    pub fn is_full(&self) -> (b: bool)
        requires
            self.wf(),
        ensures
            b == (self.take_left() == 0),
    {
        self.entries.len() >= self.page_size
    }

    /// Whether the entries to be passed over have all gone by.
    pub fn is_past_skipping(&self) -> (b: bool)
        requires
            self.wf(),
        ensures
            b == (self.skip_left() == 0),
    {
        proof {
            let p = self.pages_to_skip as int;
            let s = self.page_size as int;
            assert(p >= 1 ==> (p - 1) * s >= 0) by (nonlinear_arith)
                requires
                    s >= 0,
            ;
        }
        self.pages_to_skip == 0
    }

    /// Whether no further line can change the page, so that reading may
    /// stop.
    pub fn is_done(&self) -> (b: bool)
        requires
            self.wf(),
        ensures
            b == (self.skip_left() == 0 && self.take_left() == 0),
    {
        self.is_past_skipping() && self.is_full()
    }

    /// Offers the next line of the file: the parsed entry, or `None` for a
    /// line that did not parse.
    pub fn offer(&mut self, line: Option<LogEntry>)
        requires
            old(self).wf(),
        ensures
            final(self).wf(),
            final(self).filter() == old(self).filter(),
            final(self).progress() == old(self).progress().offered(
                line_view(line),
                old(self).filter(),
            ),
    {
        let entry = match line {
            Some(entry) => entry,
            None => {
                return ;
            },
        };
        let wanted = match self.filter {
            Some(level) => level == entry.level,
            None => true,
        };
        if !wanted {
            return ;
        }
        if self.pages_to_skip > 0 {
            proof {
                let p = old(self).pages_to_skip as int;
                let s = old(self).page_size as int;
                assert((p - 1) * s >= 0) by (nonlinear_arith)
                    requires
                        p >= 1,
                        s >= 0,
                ;
            }
            if self.left_on_skipped_page > 1 {
                self.left_on_skipped_page = self.left_on_skipped_page - 1;
            } else {
                self.pages_to_skip = self.pages_to_skip - 1;
                self.left_on_skipped_page = self.page_size;
                proof {
                    let p = old(self).pages_to_skip as int;
                    let s = old(self).page_size as int;
                    assert((if p - 1 > 0 {
                        ((p - 1) - 1) * s + s
                    } else {
                        0
                    }) == (p - 1) * s + 1 - 1) by (nonlinear_arith)
                        requires
                            p >= 1,
                    ;
                }
            }
        } else if self.entries.len() < self.page_size {
            self.entries.push(entry);
            assert(entries_view(self.entries@) =~= entries_view(old(self).entries@).push(entry@));
        }
    }

    /// Hands out the page.
    pub fn finish(self) -> (page: Vec<LogEntry>)
        ensures
            entries_view(page@) == self.taken(),
    {
        self.entries
    }
}

/// What one more line does to a page.
proof fn lemma_page_grows(
    lines: Seq<Option<LogEntryView>>,
    filter: Option<LogLevel>,
    page: nat,
    page_size: nat,
)
    requires
        lines.len() > 0,
    ensures
        ({
            let before = lines.drop_last();
            let seen = matching(before, filter).len();
            let start = page * page_size;
            page_of(lines, filter, page, page_size) == if counts(lines.last(), filter) && start
                <= seen < start + page_size {
                page_of(before, filter, page, page_size).push(lines.last()->Some_0)
            } else {
                page_of(before, filter, page, page_size)
            }
        }),
{
    let before = lines.drop_last();
    let old_all = matching(before, filter);
    let all = matching(lines, filter);
    let start = page * page_size;
    if counts(lines.last(), filter) {
        assert(all == old_all.push(lines.last()->Some_0));
        if start <= old_all.len() < start + page_size {
            assert(page_of(lines, filter, page, page_size) =~= page_of(
                before,
                filter,
                page,
                page_size,
            ).push(lines.last()->Some_0));
        } else {
            assert(page_of(lines, filter, page, page_size) =~= page_of(
                before,
                filter,
                page,
                page_size,
            ));
        }
    }
}

/// A reader that is offered the lines of a file in order takes exactly the
/// page it was made for: the entries that count, without the first
/// `page * page_size` of them, up to `page_size`.
pub proof fn lemma_reader_takes_the_page(
    lines: Seq<Option<LogEntryView>>,
    filter: Option<LogLevel>,
    page: nat,
    page_size: nat,
)
    ensures
        ({
            let progress = PageProgress::start(page, page_size).after_lines(lines, filter);
            let seen = matching(lines, filter).len();
            let start = page * page_size;
            &&& progress.taken == page_of(lines, filter, page, page_size)
            &&& seen <= start ==> progress.skip_left == start - seen && progress.take_left
                == page_size
            &&& seen > start ==> progress.skip_left == 0 && progress.take_left == page_size
                - at_most(seen - start, page_size as int)
        }),
    decreases lines.len(),
{
    if lines.len() == 0 {
        assert(page_of(lines, filter, page, page_size) =~= Seq::<LogEntryView>::empty());
    } else {
        lemma_reader_takes_the_page(lines.drop_last(), filter, page, page_size);
        lemma_page_grows(lines, filter, page, page_size);
    }
}

/// Once the page is full, further lines change nothing: a reader may stop
/// reading the file there.
pub proof fn lemma_full_page_is_final(
    progress: PageProgress,
    lines: Seq<Option<LogEntryView>>,
    filter: Option<LogLevel>,
)
    requires
        progress.skip_left == 0,
        progress.take_left == 0,
    ensures
        progress.after_lines(lines, filter) == progress,
    decreases lines.len(),
{
    if lines.len() > 0 {
        lemma_full_page_is_final(progress, lines.drop_last(), filter);
    }
}

/// Offering two runs of lines one after the other is offering them all.
pub proof fn lemma_lines_in_turn(
    progress: PageProgress,
    first: Seq<Option<LogEntryView>>,
    second: Seq<Option<LogEntryView>>,
    filter: Option<LogLevel>,
)
    ensures
        progress.after_lines(first + second, filter) == progress.after_lines(
            first,
            filter,
        ).after_lines(second, filter),
    decreases second.len(),
{
    if second.len() == 0 {
        assert(first + second =~= first);
    } else {
        assert((first + second).drop_last() =~= first + second.drop_last());
        assert((first + second).last() == second.last());
        lemma_lines_in_turn(progress, first, second.drop_last(), filter);
    }
}

/// Reads one page out of the parsed lines of a log file.
///
/// Lines that did not parse are passed over. Of the entries with the level
/// asked for, the first `page * page_size` are skipped and the next
/// `page_size` are returned, in file order.
pub fn read_page(
    lines: &Vec<Option<LogEntry>>,
    filter: Option<LogLevel>,
    page: usize,
    page_size: usize,
) -> (entries: Vec<LogEntry>)
    ensures
        entries_view(entries@) == page_of(lines_view(lines@), filter, page as nat, page_size as nat),
{
    let mut reader = PageReader::new(filter, page, page_size);
    let ghost all_lines = lines_view(lines@);
    let ghost start = PageProgress::start(page as nat, page_size as nat);
    let mut i: usize = 0;
    assert(all_lines.take(0) =~= Seq::<Option<LogEntryView>>::empty());
    while i < lines.len()
        invariant
            i <= lines@.len(),
            all_lines == lines_view(lines@),
            start == PageProgress::start(page as nat, page_size as nat),
            reader.wf(),
            reader.filter() == filter,
            reader.progress() == start.after_lines(all_lines.take(i as int), filter),
        decreases lines@.len() - i,
    {
        if reader.is_done() {
            proof {
                assert(all_lines.take(i as int) + all_lines.skip(i as int) =~= all_lines);
                lemma_lines_in_turn(
                    start,
                    all_lines.take(i as int),
                    all_lines.skip(i as int),
                    filter,
                );
                lemma_full_page_is_final(reader.progress(), all_lines.skip(i as int), filter);
                lemma_reader_takes_the_page(all_lines, filter, page as nat, page_size as nat);
            }
            return reader.finish();
        }
        let line = match &lines[i] {
            Some(entry) => Some(entry.clone()),
            None => None,
        };
        proof {
            let next = all_lines.take(i as int + 1);
            assert(next.drop_last() =~= all_lines.take(i as int));
            assert(next.last() == line_view(line));
        }
        reader.offer(line);
        i = i + 1;
    }
    proof {
        assert(all_lines.take(i as int) =~= all_lines);
        lemma_reader_takes_the_page(all_lines, filter, page as nat, page_size as nat);
    }
    reader.finish()
}

/// Where every line parses and no level is asked for, every line counts.
proof fn lemma_all_count(lines: Seq<Option<LogEntryView>>)
    requires
        forall|i: int| 0 <= i < lines.len() ==> (#[trigger] lines[i]) is Some,
    ensures
        matching(lines, None) == lines.map_values(|line: Option<LogEntryView>| line->Some_0),
    decreases lines.len(),
{
    let unwrapped = lines.map_values(|line: Option<LogEntryView>| line->Some_0);
    if lines.len() > 0 {
        let before = lines.drop_last();
        assert forall|i: int| 0 <= i < before.len() implies (#[trigger] before[i]) is Some by {
            assert(before[i] == lines[i]);
        }
        lemma_all_count(before);
        assert(lines.last() is Some);
        assert(matching(lines, None) =~= unwrapped);
    } else {
        assert(matching(lines, None) =~= unwrapped);
    }
}

/// The first page of a file whose lines all parse, read without a level
/// filter, holds the first `page_size` entries of the file in file order, or
/// all of them where the file has fewer.
pub proof fn lemma_first_page(lines: Seq<Option<LogEntryView>>, page_size: nat)
    requires
        forall|i: int| 0 <= i < lines.len() ==> (#[trigger] lines[i]) is Some,
    ensures
        page_of(lines, None, 0, page_size).len() == at_most(lines.len() as int, page_size as int),
        forall|i: int|
            0 <= i < page_of(lines, None, 0, page_size).len() ==> Some(
                #[trigger] page_of(lines, None, 0, page_size)[i],
            ) == lines[i],
{
    lemma_all_count(lines);
    assert(0 * page_size == 0);
}

} // verus!
