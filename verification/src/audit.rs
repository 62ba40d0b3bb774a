//! The audit ledger: one record per request, each carrying the Merkle root of
//! the request's provenance and the hash of the record before it.
//!
//! The ledger itself holds only the chain tip. A caller that keeps the
//! records in a store asks the ledger to `prepare` a record, writes the
//! record's line, and reports to `commit` whether the write succeeded; the
//! tip moves only after a successful write.

use vstd::prelude::*;
use vstd::slice::slice_subrange;
use vstd::string::*;
use crate::dag::dag::{
    lemma_node_json_single_line,
    merkle_root_of,
    node_json,
    node_json_text,
    node_views,
    DagNode,
    DagNodeView,
    RequestDag,
};
use crate::digest::{blake3_hex, blake3_hex_of_pair};
use crate::text::{
    is_utf8,
    json_array,
    json_array_text,
    json_string,
    json_string_of,
    lemma_json_array_single_line,
    lemma_json_string_single_line,
    lemma_short_single_line,
    lemma_utf8_single_line,
    single_line,
    single_line_bytes,
    texts,
    utf8,
};

verus! {

/// One record of the ledger.
#[derive(Debug)]
pub struct AuditEntry {
    pub timestamp: String,
    pub request_id: String,
    pub mode: String,
    pub merkle_root: String,
    pub dag: Vec<DagNode>,
    pub prev_hash: String,
    pub hash: String,
}

/// What an audit record holds.
pub struct AuditEntryView {
    pub timestamp: Seq<char>,
    pub request_id: Seq<char>,
    pub mode: Seq<char>,
    pub merkle_root: Seq<char>,
    pub dag: Seq<DagNodeView>,
    pub prev_hash: Seq<char>,
    pub hash: Seq<char>,
}

impl View for AuditEntry {
    type V = AuditEntryView;

    open spec fn view(&self) -> AuditEntryView {
        AuditEntryView {
            timestamp: self.timestamp@,
            request_id: self.request_id@,
            mode: self.mode@,
            merkle_root: self.merkle_root@,
            dag: node_views(self.dag@),
            prev_hash: self.prev_hash@,
            hash: self.hash@,
        }
    }
}

/// Why the ledger could not do what was asked.
#[derive(Debug, PartialEq, Eq, Structural)]
pub enum AuditError {
    /// The record could not be written to the store.
    StoreUnavailable,
    /// No record could be read from the last line of the store.
    CorruptTail,
}

/// What to make of a last line from which no record can be read.
#[derive(Debug, Clone, Copy, PartialEq, Eq, Structural)]
pub enum TailPolicy {
    /// Go on as if the store were empty: the chain starts anew.
    Lenient,
    /// Refuse to go on.
    Strict,
}

/// What was found at the end of a store.
#[derive(Debug)]
pub enum StoreTail {
    /// There is no store, or it holds no line.
    Missing,
    /// The record read from the last line.
    Record(AuditEntry),
    /// A last line from which no record could be read.
    Unreadable,
}

/// The root recorded for a request: the Merkle root of its stages, or the
/// text `empty-dag` when it has none.
pub open spec fn recorded_root(nodes: Seq<DagNodeView>) -> Seq<char> {
    match merkle_root_of(nodes) {
        Some(root) => root,
        None => "empty-dag"@,
    }
}

/// The JSON text of a list of stage records.
pub open spec fn nodes_json(nodes: Seq<DagNodeView>) -> Seq<char> {
    json_array(Seq::new(nodes.len(), |i: int| node_json(nodes[i])))
}

/// The serialised form of a record, which is also its line in the store: a
/// JSON object with the record's members in the order of their declaration.
pub open spec fn entry_json(entry: AuditEntryView) -> Seq<char> {
    "{\"timestamp\":"@ + json_string(entry.timestamp) + ",\"request_id\":"@ + json_string(
        entry.request_id,
    ) + ",\"mode\":"@ + json_string(entry.mode) + ",\"merkle_root\":"@ + json_string(
        entry.merkle_root,
    ) + ",\"dag\":"@ + nodes_json(entry.dag) + ",\"prev_hash\":"@ + json_string(entry.prev_hash)
        + ",\"hash\":"@ + json_string(entry.hash) + "}"@
}

/// The record with its hash blanked.
pub open spec fn unhashed(entry: AuditEntryView) -> AuditEntryView {
    AuditEntryView { hash: Seq::empty(), ..entry }
}

/// The hash of a record: BLAKE3 over the previous hash followed by the
/// record's serialised form with the hash member blank.
pub open spec fn entry_hash(entry: AuditEntryView) -> Seq<char> {
    blake3_hex(utf8(entry.prev_hash) + utf8(entry_json(unhashed(entry))))
}

/// The record that follows the tip `tip` for a request.
pub open spec fn staged_entry(
    tip: Seq<char>,
    timestamp: Seq<char>,
    request_id: Seq<char>,
    mode: Seq<char>,
    nodes: Seq<DagNodeView>,
) -> AuditEntryView {
    let blank = AuditEntryView {
        timestamp,
        request_id,
        mode,
        merkle_root: recorded_root(nodes),
        dag: nodes,
        prev_hash: tip,
        hash: Seq::empty(),
    };
    AuditEntryView { hash: entry_hash(blank), ..blank }
}

/// Calls `chrono::Utc::now` and `DateTime::to_rfc3339`. Trusted: nothing is
/// claimed of the text, which depends on the clock. The clock is taken to
/// stand at or after the Unix epoch.
#[verifier::external_body]
fn utc_now_rfc3339() -> (out: String) {
    chrono::Utc::now().to_rfc3339()
}

fn nodes_json_text(nodes: &Vec<DagNode>) -> (out: String)
    ensures
        out@ == nodes_json(node_views(nodes@)),
{
    let mut items: Vec<String> = Vec::new();
    let mut i: usize = 0;
    while i < nodes.len()
        invariant
            i <= nodes@.len(),
            items@.len() == i,
            forall|k: int| 0 <= k < i ==> items@[k]@ == node_json(nodes@[k]@),
        decreases nodes@.len() - i,
    {
        items.push(node_json_text(&nodes[i]));
        i += 1;
    }
    let ghost views = node_views(nodes@);
    assert(texts(items@) =~= Seq::new(views.len(), |i: int| node_json(views[i])));
    json_array_text(&items)
}

fn clone_nodes(nodes: &Vec<DagNode>) -> (out: Vec<DagNode>)
    ensures
        node_views(out@) == node_views(nodes@),
{
    let mut out: Vec<DagNode> = Vec::new();
    let mut i: usize = 0;
    while i < nodes.len()
        invariant
            i <= nodes@.len(),
            out@.len() == i,
            forall|k: int| 0 <= k < i ==> out@[k]@ == nodes@[k]@,
        decreases nodes@.len() - i,
    {
        out.push(nodes[i].clone());
        i += 1;
    }
    assert(node_views(out@) =~= node_views(nodes@));
    out
}

impl Clone for AuditEntry {
    fn clone(&self) -> (out: Self)
        ensures
            out@ == self@,
    {
        AuditEntry {
            timestamp: self.timestamp.clone(),
            request_id: self.request_id.clone(),
            mode: self.mode.clone(),
            merkle_root: self.merkle_root.clone(),
            dag: clone_nodes(&self.dag),
            prev_hash: self.prev_hash.clone(),
            hash: self.hash.clone(),
        }
    }
}

/// Writes the serialised form of a record: its line in the store, without
/// the line break.
pub fn entry_json_text(entry: &AuditEntry) -> (out: String)
    ensures
        out@ == entry_json(entry@),
        payloads_single_line(entry@.dag) ==> single_line(out@),
{
    proof {
        if payloads_single_line(entry@.dag) {
            lemma_entry_json_single_line(entry@);
        }
    }
    let mut out = String::from_str("{\"timestamp\":");
    out.append(json_string_of(entry.timestamp.as_str()).as_str());
    out.append(",\"request_id\":");
    out.append(json_string_of(entry.request_id.as_str()).as_str());
    out.append(",\"mode\":");
    out.append(json_string_of(entry.mode.as_str()).as_str());
    out.append(",\"merkle_root\":");
    out.append(json_string_of(entry.merkle_root.as_str()).as_str());
    out.append(",\"dag\":");
    out.append(nodes_json_text(&entry.dag).as_str());
    out.append(",\"prev_hash\":");
    out.append(json_string_of(entry.prev_hash.as_str()).as_str());
    out.append(",\"hash\":");
    out.append(json_string_of(entry.hash.as_str()).as_str());
    out.append("}");
    out
}

/// Where the content of the last line of a store ends, before a carriage
/// return is taken off: a final line feed does not belong to it.
pub open spec fn last_line_end(store: Seq<u8>) -> int {
    if store.len() > 0 && store.last() == 10 {
        store.len() - 1
    } else {
        store.len() as int
    }
}

/// The last line of a store runs from `start` to `end`: the line feed that
/// ends it, and a carriage return before that line feed, are left out.
pub open spec fn is_last_line(store: Seq<u8>, start: int, end: int) -> bool {
    let stop = last_line_end(store);
    &&& 0 <= start <= end <= stop
    &&& start == 0 || store[start - 1] == 10
    &&& forall|j: int| start <= j < stop ==> store[j] != 10
    &&& end == if stop < store.len() && start < stop && store[stop - 1] == 13 {
        stop - 1
    } else {
        stop
    }
}

/// A store has one last line only.
pub proof fn lemma_last_line_unique(store: Seq<u8>, a: int, b: int, c: int, d: int)
    requires
        is_last_line(store, a, b),
        is_last_line(store, c, d),
    ensures
        a == c,
        b == d,
{
    if a < c {
        assert(store[c - 1] != 10);
    }
    if c < a {
        assert(store[a - 1] != 10);
    }
}

/// After a line and a line feed were written behind a store that is empty
/// or ends in a line feed, the last line of the store is the line written.
/// The line must hold no line feed and not end in a carriage return.
pub proof fn lemma_written_line_is_last(store: Seq<u8>, line: Seq<u8>)
    requires
        store.len() == 0 || store.last() == 10,
        forall|k: int| 0 <= k < line.len() ==> line[k] != 10,
        line.len() == 0 || line.last() != 13,
    ensures
        is_last_line(
            store + line + seq![10u8],
            store.len() as int,
            (store.len() + line.len()) as int,
        ),
{
    let after = store + line + seq![10u8];
    assert(after.len() == store.len() + line.len() + 1);
    assert(after.last() == 10);
    assert(last_line_end(after) == store.len() + line.len());
    if store.len() > 0 {
        assert(after[store.len() - 1] == store.last());
    }
    assert forall|j: int| store.len() <= j < store.len() + line.len() implies after[j] != 10 by {
        assert(after[j] == line[j - store.len()]);
    }
    if line.len() > 0 {
        assert(after[store.len() + line.len() - 1] == line.last());
    }
}

/// No payload of the stage records holds a line break.
pub open spec fn payloads_single_line(nodes: Seq<DagNodeView>) -> bool {
    forall|i: int| 0 <= i < nodes.len() ==> single_line((#[trigger] nodes[i]).payload)
}

/// The serialised form of a record is one line: it holds no line break,
/// provided that the payloads of its stage records hold none.
pub proof fn lemma_entry_json_single_line(entry: AuditEntryView)
    requires
        payloads_single_line(entry.dag),
    ensures
        single_line(entry_json(entry)),
        single_line_bytes(utf8(entry_json(entry))),
{
    lemma_json_string_single_line(entry.timestamp);
    lemma_json_string_single_line(entry.request_id);
    lemma_json_string_single_line(entry.mode);
    lemma_json_string_single_line(entry.merkle_root);
    lemma_json_string_single_line(entry.prev_hash);
    lemma_json_string_single_line(entry.hash);
    let items = Seq::new(entry.dag.len(), |i: int| node_json(entry.dag[i]));
    assert forall|i: int| 0 <= i < items.len() implies single_line(#[trigger] items[i]) by {
        lemma_node_json_single_line(entry.dag[i]);
    }
    lemma_json_array_single_line(items);
    reveal_strlit("{\"timestamp\":");
    lemma_short_single_line("{\"timestamp\":"@);
    reveal_strlit(",\"request_id\":");
    lemma_short_single_line(",\"request_id\":"@);
    reveal_strlit(",\"mode\":");
    lemma_short_single_line(",\"mode\":"@);
    reveal_strlit(",\"merkle_root\":");
    lemma_short_single_line(",\"merkle_root\":"@);
    reveal_strlit(",\"dag\":");
    lemma_short_single_line(",\"dag\":"@);
    reveal_strlit(",\"prev_hash\":");
    lemma_short_single_line(",\"prev_hash\":"@);
    reveal_strlit(",\"hash\":");
    lemma_short_single_line(",\"hash\":"@);
    reveal_strlit("}");
    lemma_short_single_line("}"@);
    lemma_utf8_single_line(entry_json(entry));
}

/// After the line of a record and a line feed were written behind a store
/// that is empty or ends in a line feed, the last line of the store is the
/// line of that record, provided that the payloads of its stage records hold
/// no line break.
pub proof fn lemma_record_line_is_last(store: Seq<u8>, entry: AuditEntryView)
    requires
        store.len() == 0 || store.last() == 10,
        payloads_single_line(entry.dag),
    ensures
        is_last_line(
            store + utf8(entry_json(entry)) + seq![10u8],
            store.len() as int,
            (store.len() + utf8(entry_json(entry)).len()) as int,
        ),
{
    lemma_entry_json_single_line(entry);
    lemma_written_line_is_last(store, utf8(entry_json(entry)));
}

/// Finds the last line of a store's bytes, as the range that holds it.
/// An empty store has no line.
pub fn last_line_span(store: &[u8]) -> (span: Option<(usize, usize)>)
    ensures
        span is None <==> store@.len() == 0,
        span matches Some((start, end)) ==> is_last_line(store@, start as int, end as int),
{
    let n: usize = store.len();
    if n == 0 {
        return None;
    }
    let stop: usize = if store[n - 1] == 10 {
        n - 1
    } else {
        n
    };
    let mut start: usize = stop;
    while start > 0 && store[start - 1] != 10
        invariant
            start <= stop <= n == store@.len(),
            forall|j: int| start <= j < stop ==> store@[j] != 10,
        decreases start,
    {
        start -= 1;
    }
    let end: usize = if stop < n && start < stop && store[stop - 1] == 13 {
        stop - 1
    } else {
        stop
    };
    Some((start, end))
}

/// Where the line that ends at `stop` begins: behind the nearest line feed
/// before `stop`, or at the start of the store.
pub open spec fn line_start(store: Seq<u8>, stop: int) -> int
    decreases stop,
{
    if stop <= 0 {
        0
    } else if store[stop - 1] == 10 {
        stop
    } else {
        line_start(store, stop - 1)
    }
}

/// The last line of a store, as the range that holds it; none for an empty
/// store.
pub open spec fn last_line(store: Seq<u8>) -> Option<(int, int)> {
    if store.len() == 0 {
        None
    } else {
        let stop = last_line_end(store);
        let start = line_start(store, stop);
        Some(
            (
                start,
                if stop < store.len() && start < stop && store[stop - 1] == 13 {
                    stop - 1
                } else {
                    stop
                },
            ),
        )
    }
}

/// The last line of a store that is valid UTF-8, as the range that holds
/// it: lines that are not are passed over from the end, as a reader of text
/// lines passes over them.
pub open spec fn last_readable_line(store: Seq<u8>) -> Option<(int, int)>
    decreases store.len(),
{
    match last_line(store) {
        None => None,
        Some((start, end)) => if vstd::utf8::valid_utf8(store.subrange(start, end)) {
            Some((start, end))
        } else if 0 <= start < store.len() {
            last_readable_line(store.take(start))
        } else {
            None
        },
    }
}

/// The range of a span of the store.
pub open spec fn span_view(span: Option<(usize, usize)>) -> Option<(int, int)> {
    match span {
        Some((start, end)) => Some((start as int, end as int)),
        None => None,
    }
}

proof fn lemma_line_start(store: Seq<u8>, start: int, stop: int)
    requires
        0 <= start <= stop <= store.len(),
        start == 0 || store[start - 1] == 10,
        forall|j: int| start <= j < stop ==> store[j] != 10,
    ensures
        line_start(store, stop) == start,
    decreases stop - start,
{
    if stop > start {
        lemma_line_start(store, start, stop - 1);
    }
}

/// The range that `is_last_line` describes is the one that `last_line`
/// gives.
pub proof fn lemma_last_line_is(store: Seq<u8>, start: int, end: int)
    requires
        store.len() > 0,
        is_last_line(store, start, end),
    ensures
        last_line(store) == Some((start, end)),
{
    lemma_line_start(store, start, last_line_end(store));
}

/// Finds the last line of a store that is valid UTF-8.
pub fn last_readable_line_span(store: &[u8]) -> (span: Option<(usize, usize)>)
    ensures
        span_view(span) == last_readable_line(store@),
{
    let mut cut: usize = store.len();
    assert(store@.take(cut as int) =~= store@);
    loop
        invariant
            cut <= store@.len(),
            last_readable_line(store@) == last_readable_line(store@.take(cut as int)),
        decreases cut,
    {
        let head = slice_subrange(store, 0, cut);
        assert(head@ =~= store@.take(cut as int));
        match last_line_span(head) {
            None => {
                return None;
            },
            Some((start, end)) => {
                proof {
                    lemma_last_line_is(head@, start as int, end as int);
                    assert(head@.subrange(start as int, end as int) =~= store@.subrange(
                        start as int,
                        end as int,
                    ));
                    assert(head@.take(start as int) =~= store@.take(start as int));
                }
                if is_utf8(slice_subrange(store, start, end)) {
                    return Some((start, end));
                }
                assert(start < cut);
                cut = start;
            },
        }
    }
}

/// The tip from which a ledger goes on after a restart: the hash of the
/// record recovered from the store, or the empty text where none was.
pub open spec fn recovered_tip(recovered: Option<AuditEntryView>) -> Seq<char> {
    match recovered {
        Some(entry) => entry.hash,
        None => Seq::empty(),
    }
}

/// The ledger's memory: the hash of the record appended last.
pub struct AuditLog {
    last_hash: String,
}

impl AuditLog {
    /// The chain tip: the hash of the last record, or the empty text before
    /// the first.
    pub closed spec fn tip(&self) -> Seq<char> {
        self.last_hash@
    }

    /// A ledger that continues after `recovered`, the record read from the
    /// last line of the store. Where there was no store, no line, or no
    /// record to be read from the line, the chain starts anew.
    pub fn new(recovered: Option<AuditEntry>) -> (log: Self)
        ensures
            log.tip() == recovered_tip(
                match recovered {
                    Some(entry) => Some(entry@),
                    None => None,
                },
            ),
    {
        match recovered {
            Some(entry) => AuditLog { last_hash: entry.hash },
            None => AuditLog { last_hash: String::new() },
        }
    }

    /// Sets a ledger up from what was found at the end of its store. An
    /// unreadable last line starts the chain anew under the lenient policy,
    /// and is an error under the strict one.
    pub fn recover(tail: StoreTail, policy: TailPolicy) -> (r: Result<Self, AuditError>)
        ensures
            match tail {
                StoreTail::Missing => r matches Ok(log) && log.tip() == recovered_tip(None),
                StoreTail::Record(entry) => r matches Ok(log) && log.tip() == recovered_tip(
                    Some(entry@),
                ),
                StoreTail::Unreadable => match policy {
                    TailPolicy::Lenient => r matches Ok(log) && log.tip() == recovered_tip(None),
                    TailPolicy::Strict => r matches Err(e) && e == AuditError::CorruptTail,
                },
            },
    {
        match tail {
            StoreTail::Missing => Ok(Self::new(None)),
            StoreTail::Record(entry) => Ok(Self::new(Some(entry))),
            StoreTail::Unreadable => match policy {
                TailPolicy::Lenient => Ok(Self::new(None)),
                TailPolicy::Strict => Err(AuditError::CorruptTail),
            },
        }
    }

    /// The chain tip.
    pub fn last_hash(&self) -> (tip: &str)
        ensures
            tip@ == self.tip(),
    {
        self.last_hash.as_str()
    }

    /// Makes the record that follows the tip for a request, without moving
    /// the tip.
    pub fn prepare(&self, timestamp: &str, request_id: &str, mode: &str, dag: &RequestDag) -> (entry:
        AuditEntry)
        ensures
            entry@ == staged_entry(self.tip(), timestamp@, request_id@, mode@, dag.stages()),
            entry@.hash.len() == 64,
            payloads_single_line(dag.stages()) ==> single_line(entry_json(entry@)),
    {
        let merkle_root = match dag.merkle_root() {
            Some(root) => root,
            None => String::from_str("empty-dag"),
        };
        let mut entry = AuditEntry {
            timestamp: String::from_str(timestamp),
            request_id: String::from_str(request_id),
            mode: String::from_str(mode),
            merkle_root,
            dag: clone_nodes(&dag.nodes),
            prev_hash: self.last_hash.clone(),
            hash: String::new(),
        };
        let ghost blank = entry@;
        assert(unhashed(blank) == blank);
        let json = entry_json_text(&entry);
        entry.hash = blake3_hex_of_pair(entry.prev_hash.as_str().as_bytes(), json.as_str().as_bytes());
        assert(entry@ == (AuditEntryView { hash: entry_hash(blank), ..blank }));
        proof {
            if payloads_single_line(dag.stages()) {
                lemma_entry_json_single_line(entry@);
            }
        }
        entry
    }

    /// Takes note of what became of a prepared record. After a successful
    /// write the record's hash is the new tip; after a failed one the tip
    /// stays, so that a second attempt chains to the same record.
    pub fn commit(&mut self, entry: &AuditEntry, written: bool) -> (r: Result<(), AuditError>)
        ensures
            written ==> r is Ok && final(self).tip() == entry@.hash,
            !written ==> r == Err::<(), AuditError>(AuditError::StoreUnavailable) && final(self).tip()
                == old(self).tip(),
    {
        if written {
            self.last_hash = entry.hash.clone();
            Ok(())
        } else {
            Err(AuditError::StoreUnavailable)
        }
    }

    /// Appends a record for a request to a ledger kept in memory, stamped
    /// with the current time. Whatever the time, the record is the one that
    /// `prepare` makes for it, and its hash is the new tip.
    pub fn append(&mut self, request_id: &str, mode: &str, dag: &RequestDag) -> (entry: AuditEntry)
        ensures
            entry@ == staged_entry(
                old(self).tip(),
                entry@.timestamp,
                request_id@,
                mode@,
                dag.stages(),
            ),
            final(self).tip() == entry@.hash,
            entry@.hash.len() == 64,
            payloads_single_line(dag.stages()) ==> single_line(entry_json(entry@)),
    {
        let timestamp = utc_now_rfc3339();
        let entry = self.prepare(timestamp.as_str(), request_id, mode, dag);
        let _ = self.commit(&entry, true);
        entry
    }
}

/// What a request brings to an append.
pub struct AppendInput {
    pub timestamp: Seq<char>,
    pub request_id: Seq<char>,
    pub mode: Seq<char>,
    pub nodes: Seq<DagNodeView>,
}

/// The tip after a sequence of records, starting from `start`.
pub open spec fn tip_after(start: Seq<char>, entries: Seq<AuditEntryView>) -> Seq<char> {
    if entries.len() == 0 {
        start
    } else {
        entries.last().hash
    }
}

/// The records that a ledger with tip `start` makes for a sequence of
/// appends, one after another.
pub open spec fn appended(start: Seq<char>, inputs: Seq<AppendInput>) -> Seq<AuditEntryView>
    decreases inputs.len(),
{
    if inputs.len() == 0 {
        Seq::empty()
    } else {
        let before = appended(start, inputs.drop_last());
        let input = inputs.last();
        before.push(
            staged_entry(
                tip_after(start, before),
                input.timestamp,
                input.request_id,
                input.mode,
                input.nodes,
            ),
        )
    }
}

/// Each record but the first names the hash of the record before it, and the
/// first names `start`.
pub open spec fn chained(start: Seq<char>, entries: Seq<AuditEntryView>) -> bool {
    forall|i: int|
        0 <= i < entries.len() ==> (#[trigger] entries[i]).prev_hash == if i == 0 {
            start
        } else {
            entries[i - 1].hash
        }
}

/// Chain integrity: the records of any sequence of appends on one ledger
/// form one chain, one record for each append. On a new ledger `start` is the empty text.
pub proof fn lemma_appends_are_chained(start: Seq<char>, inputs: Seq<AppendInput>)
    ensures
        appended(start, inputs).len() == inputs.len(),
        chained(start, appended(start, inputs)),
    decreases inputs.len(),
{
    if inputs.len() > 0 {
        lemma_appends_are_chained(start, inputs.drop_last());
        let before = appended(start, inputs.drop_last());
        let all = appended(start, inputs);
        assert forall|i: int| 0 <= i < all.len() implies (#[trigger] all[i]).prev_hash == if i == 0 {
            start
        } else {
            all[i - 1].hash
        } by {
            if i < before.len() {
                assert(all[i] == before[i]);
            }
        }
    }
}

/// Recovery: a ledger that is set up anew from the last record of a
/// sequence of appends goes on from the tip that the sequence left.
pub proof fn lemma_recovery_resumes_chain(start: Seq<char>, inputs: Seq<AppendInput>)
    requires
        inputs.len() > 0,
    ensures
        recovered_tip(Some(appended(start, inputs).last())) == tip_after(
            start,
            appended(start, inputs),
        ),
{
    lemma_appends_are_chained(start, inputs);
}

/// A record for a request without stages carries the text `empty-dag` in
/// place of a Merkle root.
pub proof fn lemma_empty_dag_sentinel(
    tip: Seq<char>,
    timestamp: Seq<char>,
    request_id: Seq<char>,
    mode: Seq<char>,
)
    ensures
        merkle_root_of(Seq::<DagNodeView>::empty()) is None,
        staged_entry(tip, timestamp, request_id, mode, Seq::empty()).merkle_root == "empty-dag"@,
{
    assert(crate::dag::dag::leaf_hashes(Seq::<DagNodeView>::empty()).len() == 0);
}

} // verus!
