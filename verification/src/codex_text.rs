//! The text in which the codex is kept between runs.

use crate::codex::{put, Codex};
use crate::common::{GameError, GameResult};
use crate::scan::{
    chars_of, index_of, integer_within, read_integer, span_string, split, split_once_span,
    split_span, strip, strip_end, strip_end_span, strip_span, strip_start, strip_start_span, trim,
    trim_span, whole, Class, Span,
};
use crate::text::{digits, push_digits};
use vstd::prelude::*;
use vstd::string::StringExecFns;

verus! {

/// One entry of the text: what it says, or the entry itself where it
/// lacks the colon between species and count. Blank entries say nothing.
/// The species may stand in double quotes; a count that is no number
/// within range counts as zero.
pub enum Entry {
    Blank,
    Count(Seq<char>, u32),
    Malformed(Seq<char>),
}

/// What an entry of the text says.
pub open spec fn entry_of(piece: Seq<char>) -> Entry {
    let line = trim(piece);
    let colon = index_of(line, ':');
    if line.len() == 0 {
        Entry::Blank
    } else if colon >= line.len() {
        Entry::Malformed(line)
    } else {
        Entry::Count(
            strip(trim(line.take(colon)), Class::Is('"')),
            match integer_within(trim(line.skip(colon + 1)), 0, u32::MAX as int) {
                Some(v) => v as u32,
                None => 0,
            },
        )
    }
}

/// The entries of a codex text: what stands between the outer braces,
/// cut at the commas.
pub open spec fn entries_of(data: Seq<char>) -> Seq<Seq<char>> {
    split(strip_end(strip_start(trim(data), Class::Is('{')), Class::Is('}')), ',')
}

/// The ledger that the first `n` entries give: each entry sets the count
/// of its species, a later entry in the place of an earlier one.
pub open spec fn ledger_after(entries: Seq<Seq<char>>, n: int) -> Seq<(Seq<char>, u32)>
    decreases n,
{
    if n <= 0 {
        Seq::empty()
    } else {
        match entry_of(entries[n - 1]) {
            Entry::Count(species, count) => put(ledger_after(entries, n - 1), species, count),
            _ => ledger_after(entries, n - 1),
        }
    }
}

/// Whether a codex holds the ledger that the first `n` entries give.
pub open spec fn holds_ledger(codex: Codex, entries: Seq<Seq<char>>, n: int) -> bool {
    codex.ledger() == ledger_after(entries, n)
}

/// The count that the first `n` entries give a species: that of the last
/// entry about it, and zero where there is none.
pub open spec fn count_after(entries: Seq<Seq<char>>, n: int, id: Seq<char>) -> nat
    decreases n,
{
    if n <= 0 {
        0
    } else {
        match entry_of(entries[n - 1]) {
            Entry::Count(species, count) => if species == id {
                count as nat
            } else {
                count_after(entries, n - 1, id)
            },
            _ => count_after(entries, n - 1, id),
        }
    }
}

/// The count that the first `n` entries give all species together.
pub open spec fn total_after(entries: Seq<Seq<char>>, n: int) -> int
    decreases n,
{
    if n <= 0 {
        0
    } else {
        match entry_of(entries[n - 1]) {
            Entry::Count(species, count) => total_after(entries, n - 1) - count_after(
                entries,
                n - 1,
                species,
            ) + count,
            _ => total_after(entries, n - 1),
        }
    }
}

/// What is wrong with the first `n` entries, if anything: the first
/// entry that lacks its colon, or the species whose entry makes the
/// counts exceed what a codex holds.
pub open spec fn fault_in(entries: Seq<Seq<char>>, n: int) -> Option<Seq<char>>
    decreases n,
{
    if n <= 0 {
        None
    } else {
        match fault_in(entries, n - 1) {
            Some(fault) => Some(fault),
            None => match entry_of(entries[n - 1]) {
                Entry::Malformed(line) => Some(line),
                Entry::Count(species, _) => if total_after(entries, n) > u32::MAX {
                    Some(species)
                } else {
                    None
                },
                Entry::Blank => None,
            },
        }
    }
}

/// The line of a record in the codex text.
pub open spec fn record_line(record: (Seq<char>, u32), last: bool) -> Seq<char> {
    "  \""@ + record.0 + "\": "@ + digits(record.1 as nat) + if last {
        "\n"@
    } else {
        ",\n"@
    }
}

/// The lines of the first `n` records in the codex text.
pub open spec fn record_lines(records: Seq<(Seq<char>, u32)>, n: int) -> Seq<char>
    decreases n,
{
    if n <= 0 {
        Seq::empty()
    } else {
        record_lines(records, n - 1) + record_line(records[n - 1], n == records.len())
    }
}

/// The text of a codex: its records in braces, one per line, each as the
/// species in double quotes, a colon and the count, with commas between.
pub open spec fn codex_text(records: Seq<(Seq<char>, u32)>) -> Seq<char> {
    "{\n"@ + record_lines(records, records.len() as int) + "}"@
}

/// What one entry of the text says.
enum Read {
    Blank,
    Count(Span, u32),
    Malformed(Span),
}

/// Reads one entry of the text.
fn read_entry(text: &Vec<char>, piece: Span) -> (r: Read)
    requires
        piece.within(text@.len()),
    ensures
        match r {
            Read::Blank => entry_of(piece.of(text@)) is Blank,
            Read::Count(id, count) => id.within(text@.len()) && entry_of(piece.of(text@))
                == Entry::Count(id.of(text@), count),
            Read::Malformed(line) => line.within(text@.len()) && entry_of(piece.of(text@))
                == Entry::Malformed(line.of(text@)),
        },
{
    let line = trim_span(text, piece);
    if line.start == line.end {
        return Read::Blank;
    }
    let (head, tail) = split_once_span(text, line, ':');
    match tail {
        None => Read::Malformed(line),
        Some(rest) => {
            let id = strip_span(text, trim_span(text, head), Class::Is('"'));
            let number = trim_span(text, rest);
            let count = match read_integer(text, number, 0, u32::MAX as i64) {
                Some(v) => v as u32,
                None => 0,
            };
            Read::Count(id, count)
        },
    }
}

/// The counts of the entries read so far do not depend on later entries.
proof fn lemma_count_after_step(entries: Seq<Seq<char>>, n: int, id: Seq<char>)
    requires
        0 < n <= entries.len(),
    ensures
        count_after(entries, n, id) == match entry_of(entries[n - 1]) {
            Entry::Count(species, count) => if species == id {
                count as nat
            } else {
                count_after(entries, n - 1, id)
            },
            _ => count_after(entries, n - 1, id),
        },
{
}

/// A fault among the first entries is the fault of the whole text.
proof fn lemma_fault_stays(entries: Seq<Seq<char>>, m: int, n: int)
    requires
        0 <= m <= n,
        fault_in(entries, m).is_some(),
    ensures
        fault_in(entries, n) == fault_in(entries, m),
    decreases n,
{
    if n > m {
        lemma_fault_stays(entries, m, n - 1);
    }
}

impl Codex {
    /// The text of the codex.
    pub fn to_text(&self) -> (s: String)
        ensures
            s@ == codex_text(self.ledger()),
    {
        let records = self.entries();
        let ghost ledger = self.ledger();
        proof {
            reveal(crate::codex::ledger_of);
        }
        let n = records.len();
        let mut s = String::from_str("{\n");
        let mut i: usize = 0;
        while i < n
            invariant
                i <= n,
                n == records@.len(),
                ledger == crate::codex::ledger_of(records@),
                s@ == "{\n"@ + record_lines(ledger, i as int),
            decreases n - i,
        {
            let ghost before = s@;
            proof {
                reveal(crate::codex::ledger_of);
            }
            s.append("  \"");
            s.append(records[i].id.as_str());
            s.append("\": ");
            push_digits(&mut s, records[i].count as u64);
            if i + 1 != n {
                s.append(",\n");
            } else {
                s.append("\n");
            }
            assert(s@ =~= before + record_line(ledger[i as int], i + 1 == n));
            i += 1;
        }
        s.append("}");
        s
    }

    /// Reads a codex from its text. Later entries about a species
    /// replace earlier ones. Fails with a parse error that names the
    /// first entry without a colon, or the species at which the counts
    /// exceed what a codex holds.
    pub fn from_text(data: &str) -> (r: GameResult<Codex>)
        ensures
            match r {
                Ok(codex) => codex.wf() && loaded(
                    codex,
                    entries_of(data@),
                    entries_of(data@).len() as int,
                ),
                Err(e) => e matches GameError::Parse(msg) && fault_in(
                    entries_of(data@),
                    entries_of(data@).len() as int,
                ) == Some(msg@),
            },
    {
        let text = chars_of(data);
        let parts = entry_spans(&text);
        let mut codex = Codex::new();
        assert(loaded(codex, entries_of(data@), 0)) by {
            reveal(crate::codex::ledger_of);
            assert(codex.ledger() =~= Seq::<(Seq<char>, u32)>::empty());
        }
        let n = parts.len();
        let mut k: usize = 0;
        while k < n
            invariant
                k <= n,
                n == parts@.len(),
                n == entries_of(data@).len(),
                text@ == data@,
                crate::scan::all_within(parts@, text@.len()),
                crate::scan::pieces(text@, parts@) == entries_of(data@),
                codex.wf(),
                loaded(codex, entries_of(data@), k as int),
            decreases n - k,
        {
            match load_entry(&mut codex, data, &text, parts[k], Ghost(entries_of(data@)), Ghost(k as int)) {
                Some(fault) => {
                    proof {
                        lemma_fault_stays(entries_of(data@), k + 1, n as int);
                    }
                    return Err(GameError::Parse(fault));
                },
                None => {},
            }
            k += 1;
        }
        Ok(codex)
    }
}

/// Whether a codex holds what the first `n` entries of a text give: no
/// entry among them is at fault, and ledger and counts are theirs.
pub open spec fn loaded(codex: Codex, entries: Seq<Seq<char>>, n: int) -> bool {
    &&& fault_in(entries, n).is_none()
    &&& holds_ledger(codex, entries, n)
    &&& codex.total() == total_after(entries, n)
    &&& forall|id: Seq<char>| codex.count_of(id) == count_after(entries, n, id)
}

/// The entries of a codex text as stretches of it.
fn entry_spans(text: &Vec<char>) -> (parts: Vec<Span>)
    ensures
        crate::scan::all_within(parts@, text@.len()),
        crate::scan::pieces(text@, parts@) == entries_of(text@),
        parts@.len() == entries_of(text@).len(),
{
    let inner = strip_end_span(
        text,
        strip_start_span(text, trim_span(text, whole(text)), Class::Is('{')),
        Class::Is('}'),
    );
    split_span(text, inner, ',')
}

/// Puts entry `n` of a text into a codex that holds the entries before
/// it, or reports what is wrong with the entry.
fn load_entry(
    codex: &mut Codex,
    data: &str,
    text: &Vec<char>,
    part: Span,
    Ghost(entries): Ghost<Seq<Seq<char>>>,
    Ghost(n): Ghost<int>,
) -> (fault: Option<String>)
    requires
        text@ == data@,
        part.within(text@.len()),
        0 <= n < entries.len(),
        entries[n] == part.of(text@),
        old(codex).wf(),
        loaded(*old(codex), entries, n),
    ensures
        final(codex).wf(),
        match fault {
            Some(msg) => fault_in(entries, n + 1) == Some(msg@),
            None => loaded(*final(codex), entries, n + 1),
        },
{
    match read_entry(text, part) {
        Read::Blank => None,
        Read::Malformed(line) => Some(span_string(data, text, line)),
        Read::Count(id, count) => {
            let species = span_string(data, text, id);
            let held = codex.count(species.as_str());
            let total = codex.total_captures();
            if (total - held) as u64 + count as u64 > u32::MAX as u64 {
                return Some(species);
            }
            codex.set_count(species.as_str(), count);
            proof {
                assert forall|other: Seq<char>| codex.count_of(other) == count_after(
                    entries,
                    n + 1,
                    other,
                ) by {
                    lemma_count_after_step(entries, n + 1, other);
                }
            }
            None
        },
    }
}

} // verus!
