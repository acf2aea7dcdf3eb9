use raft_diag::formatter::{
    format_confchange, format_confchangev2, format_entry, format_message, format_snapshot,
    render_confchange, render_confchangev2, render_entry, render_message, render_snapshot,
    set_custom_formatter, CustomFormatter, DefaultFormatter, FormatterSlot, Site, Text,
};
use raft_diag::payload::{default_format, Payload, PayloadView};
use raft_diag::records::{
    ConfChange, ConfChangeSingle, ConfChangeTransition, ConfChangeType, ConfChangeV2, ConfState,
    Entry, EntryType, Message, MessageType, Snapshot, SnapshotMetadata,
};

/// Marks each site with its own tag, and shows how many bytes it was given.
struct Tagging {
    mark: &'static str,
}

impl Tagging {
    fn tag(&self, site: &str, v: &Payload) -> String {
        let len = match v {
            Payload::Prost(bytes) => bytes.len(),
            Payload::Protobuf(buffer) => buffer.len(),
        };
        format!("<{}{}:{}>", self.mark, site, len)
    }
}

impl CustomFormatter for Tagging {
    fn renders(&self, _site: Site, _payload: PayloadView, _text: Text) -> bool {
        unreachable!("a rule is never run")
    }

    fn format_entry_context(&self, v: &Payload) -> String {
        self.tag("entry-context", v)
    }

    fn format_entry_data(&self, v: &Payload) -> String {
        self.tag("entry-data", v)
    }

    fn format_confchangev2_context(&self, v: &Payload) -> String {
        self.tag("batch-context", v)
    }

    fn format_confchange_context(&self, v: &Payload) -> String {
        self.tag("change-context", v)
    }

    fn format_message_context(&self, v: &Payload) -> String {
        self.tag("message-context", v)
    }

    fn format_snapshot_data(&self, v: &Payload) -> String {
        self.tag("snapshot-data", v)
    }
}

/// Hides the data of entries and leaves every other site as it is.
struct Redactor;

impl CustomFormatter for Redactor {
    fn renders(&self, _site: Site, _payload: PayloadView, _text: Text) -> bool {
        unreachable!("a rule is never run")
    }

    fn format_entry_context(&self, v: &Payload) -> String {
        default_format(v)
    }

    fn format_entry_data(&self, _v: &Payload) -> String {
        String::from("<redacted>")
    }

    fn format_confchangev2_context(&self, v: &Payload) -> String {
        default_format(v)
    }

    fn format_confchange_context(&self, v: &Payload) -> String {
        default_format(v)
    }

    fn format_message_context(&self, v: &Payload) -> String {
        default_format(v)
    }

    fn format_snapshot_data(&self, v: &Payload) -> String {
        default_format(v)
    }
}

fn empty_entry() -> Entry {
    Entry {
        entry_type: EntryType::EntryNormal,
        term: 0,
        index: 0,
        data: Payload::Prost(vec![]),
        context: Payload::Prost(vec![]),
        sync_log: false,
    }
}

fn entry(index: u64, data: Vec<u8>) -> Entry {
    Entry {
        entry_type: EntryType::EntryConfChange,
        term: 4,
        index,
        data: Payload::Prost(data),
        context: Payload::Prost(vec![9]),
        sync_log: true,
    }
}

fn empty_message() -> Message {
    Message {
        msg_type: MessageType::MsgHup,
        to: 0,
        from: 0,
        term: 0,
        log_term: 0,
        index: 0,
        entries: vec![],
        commit: 0,
        commit_term: 0,
        snapshot: None,
        request_snapshot: 0,
        reject: false,
        reject_hint: 0,
        context: Payload::Prost(vec![]),
        deprecated_priority: 0,
        priority: 0,
    }
}

fn full_message() -> Message {
    Message {
        msg_type: MessageType::MsgAppend,
        to: 2,
        from: 1,
        term: 7,
        log_term: 6,
        index: 40,
        entries: vec![entry(41, vec![1]), entry(42, vec![2, 3])],
        commit: 39,
        commit_term: 5,
        snapshot: Some(Snapshot {
            data: Payload::Prost(vec![8, 8]),
            metadata: Some(SnapshotMetadata {
                conf_state: Some(ConfState {
                    voters: vec![1, 2, 3],
                    learners: vec![],
                    voters_outgoing: vec![],
                    learners_next: vec![],
                    auto_leave: false,
                }),
                index: 30,
                term: 5,
            }),
        }),
        request_snapshot: 13,
        reject: true,
        reject_hint: 38,
        context: Payload::Prost(vec![255]),
        deprecated_priority: 3,
        priority: -2,
    }
}

#[test]
fn default_strategy_renders_an_empty_entry() {
    let slot = FormatterSlot::new(DefaultFormatter);
    assert_eq!(
        format_entry(&slot, &empty_entry()),
        "Entry { context: Prost([]), data: Prost([]), entry_type: EntryNormal, index: 0, sync_log: false, term: 0 }"
    );
}

#[test]
fn default_strategy_renders_each_field_of_an_entry() {
    let slot = FormatterSlot::new(DefaultFormatter);
    let entry = Entry {
        entry_type: EntryType::EntryConfChangeV2,
        term: 907,
        index: 18446744073709551615,
        data: Payload::Prost(vec![1, 20, 255]),
        context: Payload::Protobuf(bytes::Bytes::from_static(b"ctx")),
        sync_log: true,
    };
    assert_eq!(
        format_entry(&slot, &entry),
        "Entry { context: Prost([99, 116, 120]), data: Prost([1, 20, 255]), entry_type: EntryConfChangeV2, index: 18446744073709551615, sync_log: true, term: 907 }"
    );
}

#[test]
fn entry_embeds_what_the_strategy_gives_verbatim() {
    let strategy = Tagging { mark: "" };
    let entry = Entry {
        entry_type: EntryType::EntryNormal,
        term: 2,
        index: 5,
        data: Payload::Prost(vec![1, 2, 3]),
        context: Payload::Prost(vec![4]),
        sync_log: false,
    };
    let context = strategy.format_entry_context(&entry.context);
    let data = strategy.format_entry_data(&entry.data);
    assert_eq!(context, "<entry-context:1>");
    assert_eq!(data, "<entry-data:3>");
    let expected = format!(
        "Entry {{ context: {}, data: {}, entry_type: EntryNormal, index: 5, sync_log: false, term: 2 }}",
        context, data
    );
    let slot = FormatterSlot::new(strategy);
    assert_eq!(format_entry(&slot, &entry), expected);
    assert_eq!(
        format_entry(&slot, &entry),
        "Entry { context: <entry-context:1>, data: <entry-data:3>, entry_type: EntryNormal, index: 5, sync_log: false, term: 2 }"
    );
}

#[test]
fn entry_is_rendered_round_given_texts() {
    assert_eq!(
        render_entry("C", "D", &entry(3, vec![])),
        "Entry { context: C, data: D, entry_type: EntryConfChange, index: 3, sync_log: true, term: 4 }"
    );
    assert_eq!(
        render_entry("", "", &empty_entry()),
        "Entry { context: , data: , entry_type: EntryNormal, index: 0, sync_log: false, term: 0 }"
    );
}

#[test]
fn default_strategy_renders_a_configuration_change() {
    let slot = FormatterSlot::new(DefaultFormatter);
    let change = ConfChange {
        change_type: ConfChangeType::RemoveNode,
        node_id: 3,
        context: Payload::Prost(vec![7]),
        id: 12,
    };
    assert_eq!(
        format_confchange(&slot, &change),
        "ConfChange { change_type: RemoveNode, node_id: 3, id: 12, context: Prost([7]) }"
    );
}

#[test]
fn configuration_change_embeds_what_the_strategy_gives() {
    let slot = FormatterSlot::new(Tagging { mark: "" });
    let change = ConfChange {
        change_type: ConfChangeType::AddNode,
        node_id: 0,
        context: Payload::Prost(vec![7, 7]),
        id: 0,
    };
    assert_eq!(
        format_confchange(&slot, &change),
        "ConfChange { change_type: AddNode, node_id: 0, id: 0, context: <change-context:2> }"
    );
    assert_eq!(
        render_confchange("anything", &change),
        "ConfChange { change_type: AddNode, node_id: 0, id: 0, context: anything }"
    );
}

#[test]
fn default_strategy_renders_a_batch_of_changes() {
    let slot = FormatterSlot::new(DefaultFormatter);
    let batch = ConfChangeV2 {
        transition: ConfChangeTransition::Explicit,
        changes: vec![
            ConfChangeSingle { change_type: ConfChangeType::AddNode, node_id: 1 },
            ConfChangeSingle { change_type: ConfChangeType::AddLearnerNode, node_id: 2 },
        ],
        context: Payload::Prost(vec![]),
    };
    assert_eq!(
        format_confchangev2(&slot, &batch),
        "ConfChangeV2 { transition: Explicit, changes: [node_id: 1, change_type: AddLearnerNode node_id: 2], context: Prost([]) }"
    );
}

#[test]
fn empty_batch_of_changes() {
    let slot = FormatterSlot::new(Tagging { mark: "" });
    let batch = ConfChangeV2 {
        transition: ConfChangeTransition::Auto,
        changes: vec![],
        context: Payload::Prost(vec![]),
    };
    assert_eq!(
        format_confchangev2(&slot, &batch),
        "ConfChangeV2 { transition: Auto, changes: [], context: <batch-context:0> }"
    );
    assert_eq!(
        render_confchangev2("x", &batch),
        "ConfChangeV2 { transition: Auto, changes: [], context: x }"
    );
}

#[test]
fn default_strategy_renders_a_snapshot_without_metadata() {
    let slot = FormatterSlot::new(DefaultFormatter);
    let snapshot = Snapshot { data: Payload::Prost(vec![]), metadata: None };
    assert_eq!(format_snapshot(&slot, &snapshot), "Snapshot { data: Prost([]), metadata: None }");
}

#[test]
fn default_strategy_renders_a_snapshot_with_metadata() {
    let slot = FormatterSlot::new(DefaultFormatter);
    let snapshot = Snapshot {
        data: Payload::Prost(vec![1]),
        metadata: Some(SnapshotMetadata { conf_state: None, index: 9, term: 2 }),
    };
    assert_eq!(
        format_snapshot(&slot, &snapshot),
        "Snapshot { data: Prost([1]), metadata: Some(index: 9 term: 2) }"
    );
}

#[test]
fn snapshot_embeds_what_the_strategy_gives() {
    let slot = FormatterSlot::new(Tagging { mark: "" });
    let snapshot = Snapshot { data: Payload::Prost(vec![1, 2, 3, 4]), metadata: None };
    assert_eq!(
        format_snapshot(&slot, &snapshot),
        "Snapshot { data: <snapshot-data:4>, metadata: None }"
    );
    assert_eq!(render_snapshot("d", &snapshot), "Snapshot { data: d, metadata: None }");
}

#[test]
fn default_strategy_renders_an_empty_message() {
    let slot = FormatterSlot::new(DefaultFormatter);
    assert_eq!(
        format_message(&slot, &empty_message()),
        "Message { msg_type: MsgHup, from: 0, to: 0, term: 0, log_term: 0, index: 0, entries: [], commit: 0, commit_term: 0, snapshot: Snapshot { data: Prost([]), metadata: None }, request_snapshot: 0, reject: false, reject_hint: 0, context: Prost([]), deprecated_priority: 0, priority: 0 }"
    );
}

#[test]
fn missing_snapshot_is_rendered_as_the_empty_one() {
    let slot = FormatterSlot::new(DefaultFormatter);
    let mut with_empty = empty_message();
    with_empty.snapshot = Some(Snapshot { data: Payload::Prost(vec![]), metadata: None });
    assert_eq!(format_message(&slot, &empty_message()), format_message(&slot, &with_empty));
}

#[test]
fn default_strategy_renders_each_field_of_a_message() {
    let slot = FormatterSlot::new(DefaultFormatter);
    assert_eq!(
        format_message(&slot, &full_message()),
        "Message { msg_type: MsgAppend, from: 1, to: 2, term: 7, log_term: 6, index: 40, entries: [Entry { context: Prost([9]), data: Prost([1]), entry_type: EntryConfChange, index: 41, sync_log: true, term: 4 }, Entry { context: Prost([9]), data: Prost([2, 3]), entry_type: EntryConfChange, index: 42, sync_log: true, term: 4 }], commit: 39, commit_term: 5, snapshot: Snapshot { data: Prost([8, 8]), metadata: Some(conf_state {voters: 1 voters: 2 voters: 3} index: 30 term: 5) }, request_snapshot: 13, reject: true, reject_hint: 38, context: Prost([255]), deprecated_priority: 3, priority: -2 }"
    );
}

#[test]
fn message_entries_field_is_the_entries_joined() {
    let slot = FormatterSlot::new(Tagging { mark: "" });
    let message = full_message();
    let first = format_entry(&slot, &message.entries[0]);
    let second = format_entry(&slot, &message.entries[1]);
    let field = format!("entries: [{}, {}], commit: ", first, second);
    let text = format_message(&slot, &message);
    assert!(text.contains(&field));
    assert!(text.contains("snapshot: Snapshot { data: <snapshot-data:2>, metadata: Some("));
    assert!(text.contains(", context: <message-context:1>, deprecated_priority: 3"));
}

#[test]
fn message_with_one_entry_has_no_separator() {
    let slot = FormatterSlot::new(DefaultFormatter);
    let mut message = empty_message();
    message.entries = vec![empty_entry()];
    let text = format_message(&slot, &message);
    let field = format!("entries: [{}], commit: 0", format_entry(&slot, &empty_entry()));
    assert!(text.contains(&field));
}

#[test]
fn message_with_three_entries_keeps_their_order() {
    let slot = FormatterSlot::new(Redactor);
    let mut message = empty_message();
    message.entries = vec![entry(1, vec![1]), entry(2, vec![2]), entry(3, vec![3])];
    let parts: Vec<String> = message.entries.iter().map(|e| format_entry(&slot, e)).collect();
    let text = format_message(&slot, &message);
    assert!(text.contains(&format!("entries: [{}], commit: 0", parts.join(", "))));
    assert!(parts[0].contains("data: <redacted>, entry_type: EntryConfChange, index: 1,"));
}

#[test]
fn message_is_rendered_round_given_texts() {
    let entries = vec![String::from("E1"), String::from("E2")];
    assert_eq!(
        render_message(&entries, "S", "C", &full_message()),
        "Message { msg_type: MsgAppend, from: 1, to: 2, term: 7, log_term: 6, index: 40, entries: [E1, E2], commit: 39, commit_term: 5, snapshot: S, request_snapshot: 13, reject: true, reject_hint: 38, context: C, deprecated_priority: 3, priority: -2 }"
    );
}

#[test]
fn message_priority_may_be_negative() {
    let slot = FormatterSlot::new(DefaultFormatter);
    let mut message = empty_message();
    message.priority = i64::MIN;
    message.deprecated_priority = u64::MAX;
    let text = format_message(&slot, &message);
    assert!(text.ends_with(
        ", deprecated_priority: 18446744073709551615, priority: -9223372036854775808 }"
    ));
}

#[test]
fn slot_holds_the_strategy_it_was_made_with() {
    let slot = FormatterSlot::new(Tagging { mark: "first-" });
    assert_eq!(slot.active().mark, "first-");
}

#[test]
fn replaced_strategy_is_seen_by_the_next_call() {
    let mut slot = FormatterSlot::new(Tagging { mark: "old-" });
    let entry = empty_entry();
    assert_eq!(
        format_entry(&slot, &entry),
        "Entry { context: <old-entry-context:0>, data: <old-entry-data:0>, entry_type: EntryNormal, index: 0, sync_log: false, term: 0 }"
    );
    set_custom_formatter(&mut slot, Tagging { mark: "new-" });
    assert_eq!(slot.active().mark, "new-");
    assert_eq!(
        format_entry(&slot, &entry),
        "Entry { context: <new-entry-context:0>, data: <new-entry-data:0>, entry_type: EntryNormal, index: 0, sync_log: false, term: 0 }"
    );
    assert!(format_message(&slot, &empty_message()).contains("context: <new-message-context:0>"));
}

#[test]
fn one_slot_holds_strategies_of_any_type() {
    let mut slot: FormatterSlot<Box<dyn CustomFormatter + Send + Sync>> =
        FormatterSlot::new(Box::new(DefaultFormatter));
    let entry = entry(6, vec![1, 2]);
    assert_eq!(
        format_entry(&slot, &entry),
        "Entry { context: Prost([9]), data: Prost([1, 2]), entry_type: EntryConfChange, index: 6, sync_log: true, term: 4 }"
    );
    set_custom_formatter(&mut slot, Box::new(Redactor));
    assert_eq!(
        format_entry(&slot, &entry),
        "Entry { context: Prost([9]), data: <redacted>, entry_type: EntryConfChange, index: 6, sync_log: true, term: 4 }"
    );
    set_custom_formatter(&mut slot, Box::new(Tagging { mark: "" }));
    assert_eq!(
        format_snapshot(&slot, &Snapshot { data: Payload::Prost(vec![]), metadata: None }),
        "Snapshot { data: <snapshot-data:0>, metadata: None }"
    );
}

#[test]
fn default_strategy_is_the_same_at_every_site() {
    let strategy = DefaultFormatter;
    for payload in [Payload::Prost(vec![1, 2]), Payload::Protobuf(bytes::Bytes::from_static(b"x"))]
    {
        let expected = default_format(&payload);
        assert_eq!(strategy.format_entry_context(&payload), expected);
        assert_eq!(strategy.format_entry_data(&payload), expected);
        assert_eq!(strategy.format_confchangev2_context(&payload), expected);
        assert_eq!(strategy.format_confchange_context(&payload), expected);
        assert_eq!(strategy.format_message_context(&payload), expected);
        assert_eq!(strategy.format_snapshot_data(&payload), expected);
    }
}
