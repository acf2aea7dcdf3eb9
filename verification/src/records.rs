//! The protocol records that are rendered: log entries, configuration
//! changes, snapshots and messages, each with the view that the contracts
//! speak of, and the text of their kinds and of their structured parts.

use crate::payload::{Payload, PayloadView};
use crate::text::{bracketed, list_text, texts_of};
use vstd::prelude::*;

verus! {

/// What a log entry holds.
#[derive(Clone, Copy, Debug, PartialEq, Eq)]
pub enum EntryType {
    EntryNormal,
    EntryConfChange,
    EntryConfChangeV2,
}

impl EntryType {
    /// The name of the kind, as it is rendered.
    pub open spec fn text(self) -> Seq<char> {
        match self {
            EntryType::EntryNormal => "EntryNormal"@,
            EntryType::EntryConfChange => "EntryConfChange"@,
            EntryType::EntryConfChangeV2 => "EntryConfChangeV2"@,
        }
    }

    /// The name of the kind.
    pub fn name(&self) -> (name: &'static str)
        ensures
            name@ == self.text(),
    {
        match self {
            EntryType::EntryNormal => "EntryNormal",
            EntryType::EntryConfChange => "EntryConfChange",
            EntryType::EntryConfChangeV2 => "EntryConfChangeV2",
        }
    }
}

/// The kinds of message that the protocol exchanges.
#[derive(Clone, Copy, Debug, PartialEq, Eq)]
pub enum MessageType {
    MsgHup,
    MsgBeat,
    MsgPropose,
    MsgAppend,
    MsgAppendResponse,
    MsgRequestVote,
    MsgRequestVoteResponse,
    MsgSnapshot,
    MsgHeartbeat,
    MsgHeartbeatResponse,
    MsgUnreachable,
    MsgSnapStatus,
    MsgCheckQuorum,
    MsgTransferLeader,
    MsgTimeoutNow,
    MsgReadIndex,
    MsgReadIndexResp,
    MsgRequestPreVote,
    MsgRequestPreVoteResponse,
}

impl MessageType {
    /// The name of the kind, as it is rendered.
    pub open spec fn text(self) -> Seq<char> {
        match self {
            MessageType::MsgHup => "MsgHup"@,
            MessageType::MsgBeat => "MsgBeat"@,
            MessageType::MsgPropose => "MsgPropose"@,
            MessageType::MsgAppend => "MsgAppend"@,
            MessageType::MsgAppendResponse => "MsgAppendResponse"@,
            MessageType::MsgRequestVote => "MsgRequestVote"@,
            MessageType::MsgRequestVoteResponse => "MsgRequestVoteResponse"@,
            MessageType::MsgSnapshot => "MsgSnapshot"@,
            MessageType::MsgHeartbeat => "MsgHeartbeat"@,
            MessageType::MsgHeartbeatResponse => "MsgHeartbeatResponse"@,
            MessageType::MsgUnreachable => "MsgUnreachable"@,
            MessageType::MsgSnapStatus => "MsgSnapStatus"@,
            MessageType::MsgCheckQuorum => "MsgCheckQuorum"@,
            MessageType::MsgTransferLeader => "MsgTransferLeader"@,
            MessageType::MsgTimeoutNow => "MsgTimeoutNow"@,
            MessageType::MsgReadIndex => "MsgReadIndex"@,
            MessageType::MsgReadIndexResp => "MsgReadIndexResp"@,
            MessageType::MsgRequestPreVote => "MsgRequestPreVote"@,
            MessageType::MsgRequestPreVoteResponse => "MsgRequestPreVoteResponse"@,
        }
    }

    /// The name of the kind.
    pub fn name(&self) -> (name: &'static str)
        ensures
            name@ == self.text(),
    {
        match self {
            MessageType::MsgHup => "MsgHup",
            MessageType::MsgBeat => "MsgBeat",
            MessageType::MsgPropose => "MsgPropose",
            MessageType::MsgAppend => "MsgAppend",
            MessageType::MsgAppendResponse => "MsgAppendResponse",
            MessageType::MsgRequestVote => "MsgRequestVote",
            MessageType::MsgRequestVoteResponse => "MsgRequestVoteResponse",
            MessageType::MsgSnapshot => "MsgSnapshot",
            MessageType::MsgHeartbeat => "MsgHeartbeat",
            MessageType::MsgHeartbeatResponse => "MsgHeartbeatResponse",
            MessageType::MsgUnreachable => "MsgUnreachable",
            MessageType::MsgSnapStatus => "MsgSnapStatus",
            MessageType::MsgCheckQuorum => "MsgCheckQuorum",
            MessageType::MsgTransferLeader => "MsgTransferLeader",
            MessageType::MsgTimeoutNow => "MsgTimeoutNow",
            MessageType::MsgReadIndex => "MsgReadIndex",
            MessageType::MsgReadIndexResp => "MsgReadIndexResp",
            MessageType::MsgRequestPreVote => "MsgRequestPreVote",
            MessageType::MsgRequestPreVoteResponse => "MsgRequestPreVoteResponse",
        }
    }
}

/// What one configuration change does to a node.
#[derive(Clone, Copy, Debug, PartialEq, Eq)]
pub enum ConfChangeType {
    AddNode,
    RemoveNode,
    AddLearnerNode,
}

impl ConfChangeType {
    /// The name of the kind, as it is rendered.
    pub open spec fn text(self) -> Seq<char> {
        match self {
            ConfChangeType::AddNode => "AddNode"@,
            ConfChangeType::RemoveNode => "RemoveNode"@,
            ConfChangeType::AddLearnerNode => "AddLearnerNode"@,
        }
    }

    /// The name of the kind.
    pub fn name(&self) -> (name: &'static str)
        ensures
            name@ == self.text(),
    {
        match self {
            ConfChangeType::AddNode => "AddNode",
            ConfChangeType::RemoveNode => "RemoveNode",
            ConfChangeType::AddLearnerNode => "AddLearnerNode",
        }
    }
}

/// How a batch of configuration changes moves through the joint
/// configuration.
#[derive(Clone, Copy, Debug, PartialEq, Eq)]
pub enum ConfChangeTransition {
    Auto,
    Implicit,
    Explicit,
}

impl ConfChangeTransition {
    /// The name of the kind, as it is rendered.
    pub open spec fn text(self) -> Seq<char> {
        match self {
            ConfChangeTransition::Auto => "Auto"@,
            ConfChangeTransition::Implicit => "Implicit"@,
            ConfChangeTransition::Explicit => "Explicit"@,
        }
    }

    /// The name of the kind.
    pub fn name(&self) -> (name: &'static str)
        ensures
            name@ == self.text(),
    {
        match self {
            ConfChangeTransition::Auto => "Auto",
            ConfChangeTransition::Implicit => "Implicit",
            ConfChangeTransition::Explicit => "Explicit",
        }
    }
}

/// A log entry.
#[derive(Debug)]
pub struct Entry {
    pub entry_type: EntryType,
    pub term: u64,
    pub index: u64,
    pub data: Payload,
    pub context: Payload,
    pub sync_log: bool,
}

pub struct EntryView {
    pub entry_type: EntryType,
    pub term: u64,
    pub index: u64,
    pub data: PayloadView,
    pub context: PayloadView,
    pub sync_log: bool,
}

impl View for Entry {
    type V = EntryView;

    open spec fn view(&self) -> EntryView {
        EntryView {
            entry_type: self.entry_type,
            term: self.term,
            index: self.index,
            data: self.data@,
            context: self.context@,
            sync_log: self.sync_log,
        }
    }
}

/// A single configuration change, with the payload that travels with it.
#[derive(Debug)]
pub struct ConfChange {
    pub change_type: ConfChangeType,
    pub node_id: u64,
    pub context: Payload,
    pub id: u64,
}

pub struct ConfChangeView {
    pub change_type: ConfChangeType,
    pub node_id: u64,
    pub context: PayloadView,
    pub id: u64,
}

impl View for ConfChange {
    type V = ConfChangeView;

    open spec fn view(&self) -> ConfChangeView {
        ConfChangeView {
            change_type: self.change_type,
            node_id: self.node_id,
            context: self.context@,
            id: self.id,
        }
    }
}

/// One elemental change of a batch.
#[derive(Clone, Copy, Debug, PartialEq, Eq)]
pub struct ConfChangeSingle {
    pub change_type: ConfChangeType,
    pub node_id: u64,
}

/// A batch of configuration changes applied together.
#[derive(Debug)]
pub struct ConfChangeV2 {
    pub transition: ConfChangeTransition,
    pub changes: Vec<ConfChangeSingle>,
    pub context: Payload,
}

pub struct ConfChangeV2View {
    pub transition: ConfChangeTransition,
    pub changes: Seq<ConfChangeSingle>,
    pub context: PayloadView,
}

impl View for ConfChangeV2 {
    type V = ConfChangeV2View;

    open spec fn view(&self) -> ConfChangeV2View {
        ConfChangeV2View {
            transition: self.transition,
            changes: self.changes@,
            context: self.context@,
        }
    }
}

/// The membership of the group at some point of the log.
#[derive(Debug)]
pub struct ConfState {
    pub voters: Vec<u64>,
    pub learners: Vec<u64>,
    pub voters_outgoing: Vec<u64>,
    pub learners_next: Vec<u64>,
    pub auto_leave: bool,
}

pub struct ConfStateView {
    pub voters: Seq<u64>,
    pub learners: Seq<u64>,
    pub voters_outgoing: Seq<u64>,
    pub learners_next: Seq<u64>,
    pub auto_leave: bool,
}

impl View for ConfState {
    type V = ConfStateView;

    open spec fn view(&self) -> ConfStateView {
        ConfStateView {
            voters: self.voters@,
            learners: self.learners@,
            voters_outgoing: self.voters_outgoing@,
            learners_next: self.learners_next@,
            auto_leave: self.auto_leave,
        }
    }
}

/// Where in the log a snapshot was taken, and the membership then.
#[derive(Debug)]
pub struct SnapshotMetadata {
    pub conf_state: Option<ConfState>,
    pub index: u64,
    pub term: u64,
}

pub struct SnapshotMetadataView {
    pub conf_state: Option<ConfStateView>,
    pub index: u64,
    pub term: u64,
}

impl View for SnapshotMetadata {
    type V = SnapshotMetadataView;

    open spec fn view(&self) -> SnapshotMetadataView {
        SnapshotMetadataView {
            conf_state: match self.conf_state {
                Some(state) => Some(state@),
                None => None,
            },
            index: self.index,
            term: self.term,
        }
    }
}

/// A snapshot of the state machine.
#[derive(Debug)]
pub struct Snapshot {
    pub data: Payload,
    pub metadata: Option<SnapshotMetadata>,
}

pub struct SnapshotView {
    pub data: PayloadView,
    pub metadata: Option<SnapshotMetadataView>,
}

impl View for Snapshot {
    type V = SnapshotView;

    open spec fn view(&self) -> SnapshotView {
        SnapshotView {
            data: self.data@,
            metadata: match self.metadata {
                Some(metadata) => Some(metadata@),
                None => None,
            },
        }
    }
}

/// The snapshot that stands for a missing one: no bytes, no metadata.
pub open spec fn empty_snapshot() -> SnapshotView {
    SnapshotView { data: PayloadView::Prost(Seq::empty()), metadata: None }
}

/// A message of the protocol.
#[derive(Debug)]
pub struct Message {
    pub msg_type: MessageType,
    pub to: u64,
    pub from: u64,
    pub term: u64,
    pub log_term: u64,
    pub index: u64,
    pub entries: Vec<Entry>,
    pub commit: u64,
    pub commit_term: u64,
    pub snapshot: Option<Snapshot>,
    pub request_snapshot: u64,
    pub reject: bool,
    pub reject_hint: u64,
    pub context: Payload,
    pub deprecated_priority: u64,
    pub priority: i64,
}

pub struct MessageView {
    pub msg_type: MessageType,
    pub to: u64,
    pub from: u64,
    pub term: u64,
    pub log_term: u64,
    pub index: u64,
    pub entries: Seq<EntryView>,
    pub commit: u64,
    pub commit_term: u64,
    pub snapshot: SnapshotView,
    pub request_snapshot: u64,
    pub reject: bool,
    pub reject_hint: u64,
    pub context: PayloadView,
    pub deprecated_priority: u64,
    pub priority: i64,
}

impl View for Message {
    type V = MessageView;

    open spec fn view(&self) -> MessageView {
        MessageView {
            msg_type: self.msg_type,
            to: self.to,
            from: self.from,
            term: self.term,
            log_term: self.log_term,
            index: self.index,
            entries: self.entries@.map_values(|entry: Entry| entry@),
            commit: self.commit,
            commit_term: self.commit_term,
            snapshot: match self.snapshot {
                Some(snapshot) => snapshot@,
                None => empty_snapshot(),
            },
            request_snapshot: self.request_snapshot,
            reject: self.reject,
            reject_hint: self.reject_hint,
            context: self.context@,
            deprecated_priority: self.deprecated_priority,
            priority: self.priority,
        }
    }
}

impl ConfChangeType {
    /// The number that the wire definition gives the kind.
    pub open spec fn number(self) -> int {
        match self {
            ConfChangeType::AddNode => 0,
            ConfChangeType::RemoveNode => 1,
            ConfChangeType::AddLearnerNode => 2,
        }
    }
}

/// The text that the `Debug` impl of `raft_proto::eraftpb::ConfChangeSingle`
/// gives the change of node `node_id` whose kind has the number
/// `change_type`.
pub uninterp spec fn change_debug_text(change_type: int, node_id: u64) -> Seq<char>;

/// Builds the `raft_proto::eraftpb::ConfChangeSingle` with the same kind and
/// node, by `raft_proto::new_conf_change_single`, and calls its `Debug`
/// impl. Trusted, and not proved: the text is a function of the kind and
/// the node. Nothing else is claimed of it.
#[verifier::external_body]
fn change_debug(change: &ConfChangeSingle) -> (text: String)
    ensures
        text@ == change_debug_text(change.change_type.number(), change.node_id),
{
    let kind = match change.change_type {
        ConfChangeType::AddNode => raft_proto::eraftpb::ConfChangeType::AddNode,
        ConfChangeType::RemoveNode => raft_proto::eraftpb::ConfChangeType::RemoveNode,
        ConfChangeType::AddLearnerNode => raft_proto::eraftpb::ConfChangeType::AddLearnerNode,
    };
    format!("{:?}", raft_proto::new_conf_change_single(change.node_id, kind))
}

/// The text of each change of `changes`, in order.
pub open spec fn change_texts(changes: Seq<ConfChangeSingle>) -> Seq<Seq<char>> {
    Seq::new(
        changes.len(),
        |i: int| change_debug_text(changes[i].change_type.number(), changes[i].node_id),
    )
}

/// The changes of a batch as a bracketed list, in their order.
pub open spec fn changes_text(changes: Seq<ConfChangeSingle>) -> Seq<char> {
    list_text(change_texts(changes))
}

/// Renders the changes of a batch as a bracketed list, in their order.
pub fn changes_to_text(changes: &Vec<ConfChangeSingle>) -> (text: String)
    ensures
        text@ == changes_text(changes@),
{
    let mut parts: Vec<String> = Vec::new();
    let mut i: usize = 0;
    while i < changes.len()
        invariant
            i <= changes.len(),
            parts.len() == i,
            forall|k: int|
                0 <= k < i ==> (#[trigger] parts[k])@ == change_debug_text(
                    changes[k].change_type.number(),
                    changes[k].node_id,
                ),
        decreases changes.len() - i,
    {
        parts.push(change_debug(&changes[i]));
        i += 1;
    }
    assert(texts_of(parts@) =~= change_texts(changes@));
    bracketed(&parts)
}

/// The fields of a membership, in the order of the wire definition: the
/// voters, the learners, the outgoing voters, the next learners, and
/// whether the joint configuration is left automatically.
pub open spec fn conf_state_fields(state: Option<ConfStateView>) -> Option<
    (Seq<u64>, Seq<u64>, Seq<u64>, Seq<u64>, bool),
> {
    match state {
        Some(state) => Some(
            (
                state.voters,
                state.learners,
                state.voters_outgoing,
                state.learners_next,
                state.auto_leave,
            ),
        ),
        None => None,
    }
}

/// The text that the `Debug` impl of `raft_proto::eraftpb::SnapshotMetadata`
/// gives the metadata with these fields, `conf_state` holding the fields of
/// its membership where it has one.
pub uninterp spec fn metadata_debug_text(
    conf_state: Option<(Seq<u64>, Seq<u64>, Seq<u64>, Seq<u64>, bool)>,
    index: u64,
    term: u64,
) -> Seq<char>;

/// Builds the `raft_proto::eraftpb::SnapshotMetadata` with the same fields,
/// its membership set only where `metadata` has one, and calls its `Debug`
/// impl. Trusted, and not proved: the text is a function of the fields.
/// Nothing else is claimed of it.
#[verifier::external_body]
fn metadata_debug(metadata: &SnapshotMetadata) -> (text: String)
    ensures
        text@ == metadata_debug_text(
            conf_state_fields(metadata@.conf_state),
            metadata.index,
            metadata.term,
        ),
{
    let mut outside = raft_proto::eraftpb::SnapshotMetadata::default();
    outside.set_index(metadata.index);
    outside.set_term(metadata.term);
    if let Some(state) = &metadata.conf_state {
        let members = outside.mut_conf_state();
        members.set_voters(state.voters.clone());
        members.set_learners(state.learners.clone());
        members.set_voters_outgoing(state.voters_outgoing.clone());
        members.set_learners_next(state.learners_next.clone());
        members.set_auto_leave(state.auto_leave);
    }
    format!("{:?}", outside)
}

impl SnapshotMetadataView {
    /// The metadata as it is rendered.
    pub open spec fn text(self) -> Seq<char> {
        metadata_debug_text(conf_state_fields(self.conf_state), self.index, self.term)
    }
}

/// A text that may be missing: `Some(..)` round one that is there, `None`
/// for one that is not.
pub open spec fn optional_text(inner: Option<Seq<char>>) -> Seq<char> {
    match inner {
        Some(text) => "Some("@ + text + ")"@,
        None => "None"@,
    }
}

/// The metadata of a snapshot, which may be missing, as it is rendered.
pub open spec fn optional_metadata_text(metadata: Option<SnapshotMetadataView>) -> Seq<char> {
    optional_text(
        match metadata {
            Some(metadata) => Some(metadata.text()),
            None => None,
        },
    )
}

/// Renders the metadata of a snapshot, which may be missing.
pub fn optional_metadata_to_text(metadata: &Option<SnapshotMetadata>) -> (text: String)
    ensures
        text@ == optional_metadata_text(
            match *metadata {
                Some(metadata) => Some(metadata@),
                None => None,
            },
        ),
{
    match metadata {
        Some(metadata) => {
            let mut text = String::from_str("Some(");
            let inner = metadata_debug(metadata);
            text.append(inner.as_str());
            text.append(")");
            text
        },
        None => String::from_str("None"),
    }
}

} // verus!
