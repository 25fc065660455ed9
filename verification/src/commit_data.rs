//! The data of one commit and its serialized form.

use crate::actions::{
    count_commit_info,
    has_commit_info,
    lemma_count_commit_info_push,
    Action,
    CommitInfo,
    MetadataEntry,
    Transaction,
};
use crate::errors::TransactionError;
use crate::foreign::{bytes_content, bytes_from_vec, json_string, json_string_value, now_millis};
use crate::operation::DeltaOperation;
use crate::text::{encoded_lines, join_encoded, join_lines};
use vstd::prelude::*;
use vstd::string::StringExecFns;

verus! {

/// What was, or is about to be, written to the log as one entry.
#[derive(Debug)]
pub struct CommitData {
    /// The actions of the entry, in order.
    pub actions: Vec<Action>,
    /// Why the commit happens.
    pub operation: DeltaOperation,
    /// Free-form metadata of the application. Where a key occurs twice, the
    /// later entry counts.
    pub app_metadata: Vec<MetadataEntry>,
    /// The application transactions the commit records.
    pub app_transactions: Vec<Transaction>,
}

/// The version this crate stamps commits with.
pub open spec fn spec_crate_version() -> Seq<char> {
    "0.1.0"@
}

/// The version this crate stamps commits with.
pub fn crate_version() -> (v: &'static str)
    ensures
        v@ == spec_crate_version(),
{
    "0.1.0"
}

/// The key under which a commit names the client that wrote it.
pub open spec fn client_version_key() -> Seq<char> {
    "clientVersion"@
}

/// The text by which a commit names the client that wrote it.
pub open spec fn client_version_text() -> Seq<char> {
    "delta-rs."@ + spec_crate_version()
}

/// Whether `entry` is the stamp that names this client.
pub open spec fn is_client_stamp(entry: MetadataEntry) -> bool {
    entry.key@ == client_version_key() && entry.value == json_string_value(client_version_text())
}

/// The transaction markers as actions, in order.
pub open spec fn txn_actions(txns: Seq<Transaction>) -> Seq<Action> {
    Seq::new(txns.len(), |i: int| Action::Txn(txns[i]))
}

/// What `CommitData::new` builds from its arguments when the clock reads `now`.
///
/// Where the given actions hold no commit bookkeeping, one record is
/// synthesized: stamped with `now`, naming the operation, and carrying the
/// application metadata extended by the client stamp. It is appended to the
/// actions, followed by one marker per application transaction.
pub open spec fn is_commit_data_for(
    data: CommitData,
    actions: Seq<Action>,
    operation: DeltaOperation,
    app_metadata: Seq<MetadataEntry>,
    app_transactions: Seq<Transaction>,
    now: i64,
) -> bool {
    &&& data.operation == operation
    &&& data.app_transactions@ == app_transactions
    &&& if count_commit_info(actions) > 0 {
        &&& data.app_metadata@ == app_metadata
        &&& data.actions@ == actions + txn_actions(app_transactions)
    } else {
        &&& data.app_metadata@.len() == app_metadata.len() + 1
        &&& data.app_metadata@.drop_last() == app_metadata
        &&& is_client_stamp(data.app_metadata@.last())
        &&& data.actions@.len() == actions.len() + 1 + app_transactions.len()
        &&& data.actions@.take(actions.len() as int) == actions
        &&& data.actions@[actions.len() as int] matches Action::CommitInfo(info)
        &&& info.timestamp == Some(now)
        &&& info.operation matches Some(name)
        &&& name@ == operation.spec_name()
        &&& info.info@ == data.app_metadata@
        &&& data.actions@.skip(actions.len() as int + 1) == txn_actions(app_transactions)
    }
}

/// The index of the first action that failed to serialize, if any did.
pub open spec fn first_failure(encoded: Seq<Result<String, serde_json::Error>>) -> Option<int>
    decreases encoded.len(),
{
    if encoded.len() == 0 {
        None
    } else {
        match first_failure(encoded.drop_last()) {
            Some(i) => Some(i),
            None => if encoded.last() is Err {
                Some(encoded.len() - 1)
            } else {
                None
            },
        }
    }
}

/// The serialized actions, where all of them serialized.
pub open spec fn encoded_texts(encoded: Seq<Result<String, serde_json::Error>>) -> Seq<String> {
    Seq::new(encoded.len(), |i: int| encoded[i]->Ok_0)
}

/// The payload of a log entry: every serialized action on a line of its own,
/// the lines joined by newlines, nothing after the last.
pub open spec fn payload_of(encoded: Seq<Result<String, serde_json::Error>>) -> Seq<u8> {
    join_lines(encoded_lines(encoded_texts(encoded)))
}

/// A first failure, if there is one, sits inside the sequence, fails, and has
/// only successes before it; without one nothing fails.
pub proof fn lemma_first_failure(encoded: Seq<Result<String, serde_json::Error>>)
    ensures
        match first_failure(encoded) {
            Some(i) => 0 <= i < encoded.len() && encoded[i] is Err && forall|j: int|
                0 <= j < i ==> encoded[j] is Ok,
            None => forall|j: int| 0 <= j < encoded.len() ==> encoded[j] is Ok,
        },
    decreases encoded.len(),
{
    if encoded.len() > 0 {
        lemma_first_failure(encoded.drop_last());
        assert(forall|j: int| 0 <= j < encoded.len() - 1 ==> encoded.drop_last()[j] == encoded[j]);
    }
}

fn copy_transaction(txn: &Transaction) -> (copy: Transaction)
    ensures
        copy == *txn,
{
    Transaction {
        app_id: txn.app_id.clone(),
        version: txn.version,
        last_updated: txn.last_updated,
    }
}

fn copy_entries(entries: &Vec<MetadataEntry>) -> (copy: Vec<MetadataEntry>)
    ensures
        copy@ == entries@,
{
    let mut copy: Vec<MetadataEntry> = Vec::new();
    let mut i: usize = 0;
    while i < entries.len()
        invariant
            i <= entries.len(),
            copy@ == entries@.take(i as int),
        decreases entries.len() - i,
    {
        let entry = MetadataEntry { key: entries[i].key.clone(), value: entries[i].value.clone() };
        copy.push(entry);
        proof {
            assert(entries@.take(i + 1) =~= entries@.take(i as int).push(entries@[i as int]));
        }
        i += 1;
    }
    proof {
        assert(entries@.take(i as int) =~= entries@);
    }
    copy
}

impl CommitData {
    /// Assembles the data of a commit, reading the clock for the timestamp of
    /// a synthesized bookkeeping record.
    pub fn new(
        actions: Vec<Action>,
        operation: DeltaOperation,
        app_metadata: Vec<MetadataEntry>,
        app_transactions: Vec<Transaction>,
    ) -> (data: Self)
        ensures
            exists|now: i64|
                is_commit_data_for(
                    data,
                    actions@,
                    operation,
                    app_metadata@,
                    app_transactions@,
                    now,
                ),
            count_commit_info(data.actions@) == if count_commit_info(actions@) == 0 {
                1
            } else {
                count_commit_info(actions@)
            },
    {
        let now = now_millis();
        CommitData::new_at(actions, operation, app_metadata, app_transactions, now)
    }

    /// Assembles the data of a commit for a given reading of the clock.
    pub fn new_at(
        actions: Vec<Action>,
        operation: DeltaOperation,
        app_metadata: Vec<MetadataEntry>,
        app_transactions: Vec<Transaction>,
        now: i64,
    ) -> (data: Self)
        ensures
            is_commit_data_for(data, actions@, operation, app_metadata@, app_transactions@, now),
            count_commit_info(data.actions@) == if count_commit_info(actions@) == 0 {
                1
            } else {
                count_commit_info(actions@)
            },
    {
        let ghost given = actions@;
        let ghost given_metadata = app_metadata@;
        let mut actions = actions;
        let mut app_metadata = app_metadata;
        let stamped = !has_commit_info(&actions);
        if stamped {
            let mut commit_info = operation.get_commit_info();
            commit_info.timestamp = Some(now);
            let client = String::from_str("delta-rs.").concat(crate_version());
            app_metadata.push(
                MetadataEntry {
                    key: String::from_str("clientVersion"),
                    value: json_string(client),
                },
            );
            commit_info.info = copy_entries(&app_metadata);
            proof {
                lemma_count_commit_info_push(given, Action::CommitInfo(commit_info));
                assert(app_metadata@.drop_last() =~= given_metadata);
            }
            actions.push(Action::CommitInfo(commit_info));
        }
        let ghost base = actions@;
        let mut i: usize = 0;
        while i < app_transactions.len()
            invariant
                i <= app_transactions.len(),
                actions@ == base + txn_actions(app_transactions@).take(i as int),
                count_commit_info(actions@) == count_commit_info(base),
            decreases app_transactions.len() - i,
        {
            let marker = Action::Txn(copy_transaction(&app_transactions[i]));
            proof {
                lemma_count_commit_info_push(actions@, marker);
                assert(txn_actions(app_transactions@).take(i + 1) =~= txn_actions(
                    app_transactions@,
                ).take(i as int).push(marker));
                assert(actions@.push(marker) =~= base + txn_actions(app_transactions@).take(i + 1));
            }
            actions.push(marker);
            i += 1;
        }
        proof {
            let txns = txn_actions(app_transactions@);
            assert(txns.take(i as int) =~= txns);
            if stamped {
                assert(actions@.take(given.len() as int) =~= given);
                assert(actions@.skip(given.len() as int + 1) =~= txns);
            }
        }
        CommitData { actions, operation, app_metadata, app_transactions }
    }

    /// Frames the serialized actions into the payload of the log entry.
    ///
    /// `encoded` holds, for each action in order, its serialization as one
    /// line of JSON or the reason it could not be serialized. The first
    /// failure is returned as it is; without one the lines are joined by
    /// newlines.
    pub fn get_bytes(&self, encoded: Vec<Result<String, serde_json::Error>>) -> (res: Result<
        bytes::Bytes,
        TransactionError,
    >)
        requires
            encoded@.len() == self.actions@.len(),
        ensures
            match first_failure(encoded@) {
                Some(i) => res matches Err(TransactionError::SerializeLogJson { json_err })
                    && encoded@[i] == Err::<String, serde_json::Error>(json_err),
                None => res matches Ok(bytes) && bytes_content(bytes) == payload_of(encoded@),
            },
    {
        let ghost all = encoded@;
        let mut lines: Vec<String> = Vec::new();
        proof {
            assert(all.take(0) =~= Seq::<Result<String, serde_json::Error>>::empty());
        }
        for item in it: encoded.into_iter()
            invariant
                it.seq() == all,
                first_failure(all.take(it.index() as int)) is None,
                lines@ == encoded_texts(all.take(it.index() as int)),
        {
            proof {
                let k = it.index() as int;
                assert(all.take(k + 1).drop_last() =~= all.take(k));
                assert(all.take(k + 1).last() == item);
            }
            match item {
                Ok(line) => {
                    proof {
                        let k = it.index() as int;
                        assert(encoded_texts(all.take(k + 1)) =~= encoded_texts(all.take(k)).push(
                            line,
                        ));
                    }
                    lines.push(line);
                },
                Err(json_err) => {
                    proof {
                        lemma_first_failure_extends(all, it.index() as int + 1);
                    }
                    return Err(TransactionError::SerializeLogJson { json_err });
                },
            }
        }
        proof {
            assert(all.take(all.len() as int) =~= all);
        }
        Ok(bytes_from_vec(join_encoded(&lines)))
    }
}

/// A failure found in a prefix is the first failure of the whole.
pub proof fn lemma_first_failure_extends(
    encoded: Seq<Result<String, serde_json::Error>>,
    n: int,
)
    requires
        0 <= n <= encoded.len(),
        first_failure(encoded.take(n)) is Some,
    ensures
        first_failure(encoded) == first_failure(encoded.take(n)),
    decreases encoded.len() - n,
{
    if n < encoded.len() {
        assert(encoded.take(n + 1).drop_last() =~= encoded.take(n));
        lemma_first_failure_extends(encoded, n + 1);
    } else {
        assert(encoded.take(n) =~= encoded);
    }
}

/// Cutting the payload of a log entry at its newlines gives back the
/// serialized actions, one per line and in order, provided there is at least
/// one action, every action serialized, and no serialization holds a newline.
pub proof fn lemma_payload_round_trip(encoded: Seq<Result<String, serde_json::Error>>)
    requires
        encoded.len() >= 1,
        first_failure(encoded) is None,
        forall|i: int|
            0 <= i < encoded.len() ==> crate::text::single_line(
                #[trigger] encoded_lines(encoded_texts(encoded))[i],
            ),
    ensures
        crate::text::split_lines(payload_of(encoded)) == encoded_lines(encoded_texts(encoded)),
{
    crate::text::lemma_split_join(encoded_lines(encoded_texts(encoded)));
}

} // verus!
