//! Listing the processes that a user can pick from.
//!
//! A process is listed under its name and command line. A filter keeps the
//! processes whose listing contains it, letter case aside.

use vstd::prelude::*;
use vstd::string::*;
use crate::snapshot::{ProcessSnapshot, SystemSnapshot};
use crate::text::{append_decimal, decimal};

verus! {

/// One entry of the list to pick from.
pub struct ProcessItem {
    pub pid: u32,
    pub name: String,
}

/// What `str::to_lowercase` makes of a text.
pub uninterp spec fn lowercase_of(text: Seq<char>) -> Seq<char>;

/// `needle` stands somewhere in `hay`, character for character.
pub open spec fn occurs_in(needle: Seq<char>, hay: Seq<char>) -> bool {
    exists|i: int|
        0 <= i && i + needle.len() <= hay.len() && #[trigger] hay.subrange(i, i + needle.len())
            == needle
}

/// The text that a process is listed under.
pub open spec fn listed_name(p: ProcessSnapshot) -> Seq<char> {
    p.name@ + " - "@ + p.command@
}

/// The process passes the filter: its listing contains the filter, both
/// taken in lower case.
pub open spec fn passes(p: ProcessSnapshot, filter: Seq<char>) -> bool {
    occurs_in(lowercase_of(filter), lowercase_of(listed_name(p)))
}

/// The identifiers and listings of the processes that pass the filter, in
/// the order of the table.
pub open spec fn listing(procs: Seq<ProcessSnapshot>, filter: Seq<char>) -> Seq<(u32, Seq<char>)>
    decreases procs.len(),
{
    if procs.len() == 0 {
        Seq::empty()
    } else if passes(procs.last(), filter) {
        listing(procs.drop_last(), filter).push((procs.last().pid, listed_name(procs.last())))
    } else {
        listing(procs.drop_last(), filter)
    }
}

/// The identifiers and names of a list of entries.
pub open spec fn entries(items: Seq<ProcessItem>) -> Seq<(u32, Seq<char>)> {
    Seq::new(items.len(), |i: int| (items[i].pid, items[i].name@))
}

/// The line that an entry is offered under.
pub open spec fn selection_text(item: ProcessItem) -> Seq<char> {
    "PID "@ + decimal(item.pid as nat) + ": "@ + item.name@
}

/// Calls `str::to_lowercase`: the result is the lower-case form of `text`,
/// as the standard library defines it for every character.
#[verifier::external_body]
fn to_lowercase(text: &str) -> (lowered: String)
    ensures
        lowered@ == lowercase_of(text@),
{
    text.to_lowercase()
}

/// Calls `str::contains` with a text as pattern: true exactly when `needle`
/// stands somewhere in `hay`.
#[verifier::external_body]
fn contains_text(hay: &str, needle: &str) -> (found: bool)
    ensures
        found == occurs_in(needle@, hay@),
{
    hay.contains(needle)
}

/// The text that the process is listed under: its name, a dash, and its
/// command line.
pub fn listed_as(p: &ProcessSnapshot) -> (name: String)
    ensures
        name@ == listed_name(*p),
{
    let mut name: String = p.name.clone();
    name.append(" - ");
    name.append(p.command.as_str());
    name
}

/// The entry of a process, if the filter stands in its listing. Both texts
/// are expected in lower case already.
pub fn entry_if_listed(pid: u32, name: String, lowered_name: &str, lowered_filter: &str) -> (entry:
    Option<ProcessItem>)
    ensures
        entry is Some <==> occurs_in(lowered_filter@, lowered_name@),
        entry is Some ==> entry->0 == (ProcessItem { pid, name }),
{
    if contains_text(lowered_name, lowered_filter) {
        Some(ProcessItem { pid, name })
    } else {
        None
    }
}

/// The processes to pick from.
pub struct ProcessManager {
    pub system: SystemSnapshot,
}

impl ProcessManager {
    /// A manager of the processes of `system`.
    pub fn new(system: SystemSnapshot) -> (m: ProcessManager)
        ensures
            m.system == system,
    {
        ProcessManager { system }
    }

    /// The entries of the processes whose listing contains `filter`, letter
    /// case aside, in the order of the table.
    pub fn get_filtered_processes(&self, filter: &str) -> (items: Vec<ProcessItem>)
        ensures
            entries(items@) == listing(self.system@, filter@),
    {
        let wanted: String = to_lowercase(filter);
        let mut items: Vec<ProcessItem> = Vec::new();
        let n: usize = self.system.len();
        let mut i: usize = 0;
        let ghost procs = self.system@;
        assert(procs.take(0) =~= Seq::<ProcessSnapshot>::empty());
        assert(entries(items@) =~= listing(procs.take(0), filter@));
        while i < n
            invariant
                i <= n,
                n == procs.len(),
                procs == self.system@,
                wanted@ == lowercase_of(filter@),
                entries(items@) == listing(procs.take(i as int), filter@),
            decreases n - i,
        {
            let p: &ProcessSnapshot = self.system.get(i);
            let name: String = listed_as(p);
            let lowered: String = to_lowercase(name.as_str());
            proof {
                assert(procs.take(i + 1).drop_last() =~= procs.take(i as int));
                assert(procs.take(i + 1).last() == procs[i as int]);
            }
            match entry_if_listed(p.pid, name, lowered.as_str(), wanted.as_str()) {
                Some(entry) => {
                    let ghost before = items@;
                    items.push(entry);
                    assert(entries(items@) =~= entries(before).push((p.pid, listed_name(*p))));
                },
                None => {},
            }
            i += 1;
        }
        assert(procs.take(n as int) =~= procs);
        items
    }

    /// The lines that the entries are offered under, in their order.
    pub fn selection_items(&self, processes: &Vec<ProcessItem>) -> (lines: Vec<String>)
        ensures
            lines@.len() == processes@.len(),
            forall|i: int|
                0 <= i < processes@.len() ==> (#[trigger] lines@[i])@ == selection_text(
                    processes@[i],
                ),
    {
        let mut lines: Vec<String> = Vec::new();
        let mut i: usize = 0;
        while i < processes.len()
            invariant
                i <= processes@.len(),
                lines@.len() == i,
                forall|k: int|
                    0 <= k < i ==> (#[trigger] lines@[k])@ == selection_text(processes@[k]),
            decreases processes@.len() - i,
        {
            let item: &ProcessItem = &processes[i];
            let mut line: String = String::new();
            line.append("PID ");
            append_decimal(&mut line, item.pid as u128);
            line.append(": ");
            line.append(item.name.as_str());
            assert(line@ =~= selection_text(*item));
            lines.push(line);
            i += 1;
        }
        lines
    }
}

} // verus!
