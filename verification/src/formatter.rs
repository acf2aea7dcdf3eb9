//! The rendering of protocol records, the strategy that renders their
//! payloads, and the slot that holds the strategy in use.

use crate::payload::{default_format, default_text, Payload, PayloadView};
use crate::records::{
    changes_text, changes_to_text, optional_metadata_text, optional_metadata_to_text, ConfChange,
    ConfChangeV2, ConfChangeV2View, ConfChangeView, Entry, EntryView, Message, MessageView,
    Snapshot, SnapshotView,
};
use crate::text::{
    bool_text, decimal_text, join_strings, join_texts, push_bool, push_decimal, push_signed,
    signed_text, texts_of,
};
use vstd::prelude::*;

verus! {

/// The places of a record where a payload is rendered.
#[derive(Clone, Copy, Debug, PartialEq, Eq)]
pub enum Site {
    EntryContext,
    EntryData,
    ConfChangeV2Context,
    ConfChangeContext,
    MessageContext,
    SnapshotData,
}

/// A rendered text, as the contracts speak of it.
pub type Text = Seq<char>;

/// A strategy for rendering payloads: one operation for each site.
///
/// `renders` is the strategy's rule, which every strategy states, and each
/// operation returns a text that the rule admits. An operation with nothing
/// of its own to say about a payload returns `default_format` of it.
pub trait CustomFormatter {
    /// Whether `text` is a rendering that this strategy gives `payload` at
    /// `site`.
    spec fn renders(&self, site: Site, payload: PayloadView, text: Text) -> bool;

    fn format_entry_context(&self, v: &Payload) -> (text: String)
        ensures
            self.renders(Site::EntryContext, v@, text@),
    ;

    fn format_entry_data(&self, v: &Payload) -> (text: String)
        ensures
            self.renders(Site::EntryData, v@, text@),
    ;

    fn format_confchangev2_context(&self, v: &Payload) -> (text: String)
        ensures
            self.renders(Site::ConfChangeV2Context, v@, text@),
    ;

    fn format_confchange_context(&self, v: &Payload) -> (text: String)
        ensures
            self.renders(Site::ConfChangeContext, v@, text@),
    ;

    fn format_message_context(&self, v: &Payload) -> (text: String)
        ensures
            self.renders(Site::MessageContext, v@, text@),
    ;

    fn format_snapshot_data(&self, v: &Payload) -> (text: String)
        ensures
            self.renders(Site::SnapshotData, v@, text@),
    ;
}

/// The strategy in use where none was chosen: the generic rendering at
/// every site, with no interpretation of the bytes.
#[derive(Clone, Copy, Debug)]
pub struct DefaultFormatter;

impl CustomFormatter for DefaultFormatter {
    open spec fn renders(&self, site: Site, payload: PayloadView, text: Text) -> bool {
        text == default_text(payload)
    }

    fn format_entry_context(&self, v: &Payload) -> (text: String) {
        default_format(v)
    }

    fn format_entry_data(&self, v: &Payload) -> (text: String) {
        default_format(v)
    }

    fn format_confchangev2_context(&self, v: &Payload) -> (text: String) {
        default_format(v)
    }

    fn format_confchange_context(&self, v: &Payload) -> (text: String) {
        default_format(v)
    }

    fn format_message_context(&self, v: &Payload) -> (text: String) {
        default_format(v)
    }

    fn format_snapshot_data(&self, v: &Payload) -> (text: String) {
        default_format(v)
    }
}

/// A boxed strategy is the strategy in the box, so that one slot can hold
/// strategies of any type.
impl<T: CustomFormatter + ?Sized> CustomFormatter for Box<T> {
    open spec fn renders(&self, site: Site, payload: PayloadView, text: Text) -> bool {
        (**self).renders(site, payload, text)
    }

    fn format_entry_context(&self, v: &Payload) -> (text: String) {
        (**self).format_entry_context(v)
    }

    fn format_entry_data(&self, v: &Payload) -> (text: String) {
        (**self).format_entry_data(v)
    }

    fn format_confchangev2_context(&self, v: &Payload) -> (text: String) {
        (**self).format_confchangev2_context(v)
    }

    fn format_confchange_context(&self, v: &Payload) -> (text: String) {
        (**self).format_confchange_context(v)
    }

    fn format_message_context(&self, v: &Payload) -> (text: String) {
        (**self).format_message_context(v)
    }

    fn format_snapshot_data(&self, v: &Payload) -> (text: String) {
        (**self).format_snapshot_data(v)
    }
}

/// The place that holds the one strategy in use. The rendering functions
/// read it; `set_custom_formatter` replaces it.
pub struct FormatterSlot<F: CustomFormatter> {
    active: F,
}

impl<F: CustomFormatter> FormatterSlot<F> {
    /// The strategy in use.
    pub closed spec fn strategy(&self) -> F {
        self.active
    }

    /// The slot as it is once `formatter` has replaced the strategy in use.
    pub closed spec fn replaced(&self, formatter: F) -> Self {
        FormatterSlot { active: formatter }
    }

    /// A slot whose strategy in use is `formatter`.
    pub fn new(formatter: F) -> (slot: Self)
        ensures
            slot.strategy() == formatter,
    {
        FormatterSlot { active: formatter }
    }

    /// The strategy in use.
    pub fn active(&self) -> (formatter: &F)
        ensures
            *formatter == self.strategy(),
    {
        &self.active
    }
}

/// Replaces the strategy in use by `formatter`. Every rendering through the
/// slot from then on is by `formatter`.
pub fn set_custom_formatter<F: CustomFormatter>(slot: &mut FormatterSlot<F>, formatter: F)
    ensures
        *final(slot) == old(slot).replaced(formatter),
        final(slot).strategy() == formatter,
{
    slot.active = formatter;
}

/// A log entry as one line, round the texts `context` and `data` of its two
/// payloads.
pub open spec fn entry_text(context: Seq<char>, data: Seq<char>, entry: EntryView) -> Seq<char> {
    "Entry { context: "@ + context + ", data: "@ + data + ", entry_type: "@
        + entry.entry_type.text() + ", index: "@ + decimal_text(entry.index as nat)
        + ", sync_log: "@ + bool_text(entry.sync_log) + ", term: "@ + decimal_text(
        entry.term as nat,
    ) + " }"@
}

/// Whether `text` is a rendering of `entry` by `strategy`: the line round
/// what the strategy gives the context and the data.
pub open spec fn is_entry_rendering<F: CustomFormatter + ?Sized>(
    strategy: &F,
    entry: EntryView,
    text: Seq<char>,
) -> bool {
    exists|context: Seq<char>, data: Seq<char>|
        #![trigger entry_text(context, data, entry)]
        strategy.renders(Site::EntryContext, entry.context, context) && strategy.renders(
            Site::EntryData,
            entry.data,
            data,
        ) && text == entry_text(context, data, entry)
}

/// Renders a log entry round the given texts of its two payloads.
pub fn render_entry(context: &str, data: &str, entry: &Entry) -> (text: String)
    ensures
        text@ == entry_text(context@, data@, entry@),
{
    let mut text = String::from_str("Entry { context: ");
    text.append(context);
    text.append(", data: ");
    text.append(data);
    text.append(", entry_type: ");
    text.append(entry.entry_type.name());
    text.append(", index: ");
    push_decimal(&mut text, entry.index);
    text.append(", sync_log: ");
    push_bool(&mut text, entry.sync_log);
    text.append(", term: ");
    push_decimal(&mut text, entry.term);
    text.append(" }");
    text
}

/// Renders a log entry as one line, its payloads by the strategy in use.
pub fn format_entry<F: CustomFormatter>(slot: &FormatterSlot<F>, entry: &Entry) -> (text: String)
    ensures
        is_entry_rendering(&slot.strategy(), entry@, text@),
{
    let formatter = slot.active();
    let data = formatter.format_entry_data(&entry.data);
    let context = formatter.format_entry_context(&entry.context);
    render_entry(context.as_str(), data.as_str(), entry)
}

/// A configuration change as one line, round the text `context` of its
/// payload.
pub open spec fn confchange_text(context: Seq<char>, change: ConfChangeView) -> Seq<char> {
    "ConfChange { change_type: "@ + change.change_type.text() + ", node_id: "@ + decimal_text(
        change.node_id as nat,
    ) + ", id: "@ + decimal_text(change.id as nat) + ", context: "@ + context + " }"@
}

/// Whether `text` is a rendering of `change` by `strategy`.
pub open spec fn is_confchange_rendering<F: CustomFormatter + ?Sized>(
    strategy: &F,
    change: ConfChangeView,
    text: Seq<char>,
) -> bool {
    exists|context: Seq<char>|
        #![trigger confchange_text(context, change)]
        strategy.renders(Site::ConfChangeContext, change.context, context) && text
            == confchange_text(context, change)
}

/// Renders a configuration change round the given text of its payload.
pub fn render_confchange(context: &str, cc: &ConfChange) -> (text: String)
    ensures
        text@ == confchange_text(context@, cc@),
{
    let mut text = String::from_str("ConfChange { change_type: ");
    text.append(cc.change_type.name());
    text.append(", node_id: ");
    push_decimal(&mut text, cc.node_id);
    text.append(", id: ");
    push_decimal(&mut text, cc.id);
    text.append(", context: ");
    text.append(context);
    text.append(" }");
    text
}

/// Renders a configuration change as one line, its payload by the strategy
/// in use.
pub fn format_confchange<F: CustomFormatter>(slot: &FormatterSlot<F>, cc: &ConfChange) -> (text:
    String)
    ensures
        is_confchange_rendering(&slot.strategy(), cc@, text@),
{
    let context = slot.active().format_confchange_context(&cc.context);
    render_confchange(context.as_str(), cc)
}

/// A batch of configuration changes as one line, round the text `context`
/// of its payload.
pub open spec fn confchangev2_text(context: Seq<char>, batch: ConfChangeV2View) -> Seq<char> {
    "ConfChangeV2 { transition: "@ + batch.transition.text() + ", changes: "@ + changes_text(
        batch.changes,
    ) + ", context: "@ + context + " }"@
}

/// Whether `text` is a rendering of `batch` by `strategy`.
pub open spec fn is_confchangev2_rendering<F: CustomFormatter + ?Sized>(
    strategy: &F,
    batch: ConfChangeV2View,
    text: Seq<char>,
) -> bool {
    exists|context: Seq<char>|
        #![trigger confchangev2_text(context, batch)]
        strategy.renders(Site::ConfChangeV2Context, batch.context, context) && text
            == confchangev2_text(context, batch)
}

/// Renders a batch of configuration changes round the given text of its
/// payload.
pub fn render_confchangev2(context: &str, cc: &ConfChangeV2) -> (text: String)
    ensures
        text@ == confchangev2_text(context@, cc@),
{
    let mut text = String::from_str("ConfChangeV2 { transition: ");
    text.append(cc.transition.name());
    text.append(", changes: ");
    let changes = changes_to_text(&cc.changes);
    text.append(changes.as_str());
    text.append(", context: ");
    text.append(context);
    text.append(" }");
    text
}

/// Renders a batch of configuration changes as one line, its payload by the
/// strategy in use.
pub fn format_confchangev2<F: CustomFormatter>(slot: &FormatterSlot<F>, cc: &ConfChangeV2) -> (text:
    String)
    ensures
        is_confchangev2_rendering(&slot.strategy(), cc@, text@),
{
    let context = slot.active().format_confchangev2_context(&cc.context);
    render_confchangev2(context.as_str(), cc)
}

/// A snapshot as one line, round the text `data` of its payload.
pub open spec fn snapshot_text(data: Seq<char>, snapshot: SnapshotView) -> Seq<char> {
    "Snapshot { data: "@ + data + ", metadata: "@ + optional_metadata_text(snapshot.metadata)
        + " }"@
}

/// Whether `text` is a rendering of `snapshot` by `strategy`.
pub open spec fn is_snapshot_rendering<F: CustomFormatter + ?Sized>(
    strategy: &F,
    snapshot: SnapshotView,
    text: Seq<char>,
) -> bool {
    exists|data: Seq<char>|
        #![trigger snapshot_text(data, snapshot)]
        strategy.renders(Site::SnapshotData, snapshot.data, data) && text == snapshot_text(
            data,
            snapshot,
        )
}

/// Renders a snapshot round the given text of its payload.
pub fn render_snapshot(data: &str, snapshot: &Snapshot) -> (text: String)
    ensures
        text@ == snapshot_text(data@, snapshot@),
{
    let mut text = String::from_str("Snapshot { data: ");
    text.append(data);
    text.append(", metadata: ");
    let metadata = optional_metadata_to_text(&snapshot.metadata);
    text.append(metadata.as_str());
    text.append(" }");
    text
}

/// Renders a snapshot as one line, its payload by the strategy in use.
pub fn format_snapshot<F: CustomFormatter>(slot: &FormatterSlot<F>, snapshot: &Snapshot) -> (text:
    String)
    ensures
        is_snapshot_rendering(&slot.strategy(), snapshot@, text@),
{
    let data = slot.active().format_snapshot_data(&snapshot.data);
    render_snapshot(data.as_str(), snapshot)
}

/// What a message's line holds before the texts of its entries: the opening
/// and the fields up to the bracket that opens the entries.
pub open spec fn message_head(message: MessageView) -> Seq<char> {
    "Message { msg_type: "@ + message.msg_type.text() + ", from: "@ + decimal_text(
        message.from as nat,
    ) + ", to: "@ + decimal_text(message.to as nat) + ", term: "@ + decimal_text(
        message.term as nat,
    ) + ", log_term: "@ + decimal_text(message.log_term as nat) + ", index: "@ + decimal_text(
        message.index as nat,
    ) + ", entries: ["@
}

/// What a message's line holds after the texts of its entries: the bracket
/// that closes them and the remaining fields, round the texts `snapshot` of
/// its snapshot and `context` of its payload.
pub open spec fn message_tail(
    snapshot: Seq<char>,
    context: Seq<char>,
    message: MessageView,
) -> Seq<char> {
    "], commit: "@ + decimal_text(message.commit as nat) + ", commit_term: "@ + decimal_text(
        message.commit_term as nat,
    ) + ", snapshot: "@ + snapshot + ", request_snapshot: "@ + decimal_text(
        message.request_snapshot as nat,
    ) + ", reject: "@ + bool_text(message.reject) + ", reject_hint: "@ + decimal_text(
        message.reject_hint as nat,
    ) + ", context: "@ + context + ", deprecated_priority: "@ + decimal_text(
        message.deprecated_priority as nat,
    ) + ", priority: "@ + signed_text(message.priority as int) + " }"@
}

/// A message as one line, round the texts of its entries, in their order
/// and joined by `, `, of its snapshot and of its payload.
pub open spec fn message_text(
    entries: Seq<Seq<char>>,
    snapshot: Seq<char>,
    context: Seq<char>,
    message: MessageView,
) -> Seq<char> {
    message_head(message) + join_texts(entries, ", "@) + message_tail(snapshot, context, message)
}

/// Whether `texts` holds, for each entry of `entries` and in the same
/// order, a rendering of it by `strategy`.
pub open spec fn are_entry_renderings<F: CustomFormatter + ?Sized>(
    strategy: &F,
    entries: Seq<EntryView>,
    texts: Seq<Seq<char>>,
) -> bool {
    &&& texts.len() == entries.len()
    &&& forall|i: int|
        0 <= i < entries.len() ==> is_entry_rendering(strategy, entries[i], #[trigger] texts[i])
}

/// Whether `text` is a rendering of `message` by `strategy`: the line round
/// renderings of its entries, of its snapshot and of its payload.
pub open spec fn is_message_rendering<F: CustomFormatter + ?Sized>(
    strategy: &F,
    message: MessageView,
    text: Seq<char>,
) -> bool {
    exists|entries: Seq<Seq<char>>, snapshot: Seq<char>, context: Seq<char>|
        #![trigger message_text(entries, snapshot, context, message)]
        are_entry_renderings(strategy, message.entries, entries) && is_snapshot_rendering(
            strategy,
            message.snapshot,
            snapshot,
        ) && strategy.renders(Site::MessageContext, message.context, context) && text
            == message_text(entries, snapshot, context, message)
}

fn render_message_head(msg: &Message) -> (text: String)
    ensures
        text@ == message_head(msg@),
{
    let mut text = String::from_str("Message { msg_type: ");
    text.append(msg.msg_type.name());
    text.append(", from: ");
    push_decimal(&mut text, msg.from);
    text.append(", to: ");
    push_decimal(&mut text, msg.to);
    text.append(", term: ");
    push_decimal(&mut text, msg.term);
    text.append(", log_term: ");
    push_decimal(&mut text, msg.log_term);
    text.append(", index: ");
    push_decimal(&mut text, msg.index);
    text.append(", entries: [");
    text
}

fn render_message_tail(snapshot: &str, context: &str, msg: &Message) -> (text: String)
    ensures
        text@ == message_tail(snapshot@, context@, msg@),
{
    let mut text = String::from_str("], commit: ");
    push_decimal(&mut text, msg.commit);
    text.append(", commit_term: ");
    push_decimal(&mut text, msg.commit_term);
    text.append(", snapshot: ");
    text.append(snapshot);
    text.append(", request_snapshot: ");
    push_decimal(&mut text, msg.request_snapshot);
    text.append(", reject: ");
    push_bool(&mut text, msg.reject);
    text.append(", reject_hint: ");
    push_decimal(&mut text, msg.reject_hint);
    text.append(", context: ");
    text.append(context);
    text.append(", deprecated_priority: ");
    push_decimal(&mut text, msg.deprecated_priority);
    text.append(", priority: ");
    push_signed(&mut text, msg.priority);
    text.append(" }");
    text
}

/// Renders a message round the given texts of its entries, of its snapshot
/// and of its payload. The texts of the entries are joined by `, `, in
/// their order, however many there are.
pub fn render_message(entries: &Vec<String>, snapshot: &str, context: &str, msg: &Message) -> (text:
    String)
    ensures
        text@ == message_text(texts_of(entries@), snapshot@, context@, msg@),
{
    let mut text = render_message_head(msg);
    let joined = join_strings(entries, ", ");
    text.append(joined.as_str());
    let tail = render_message_tail(snapshot, context, msg);
    text.append(tail.as_str());
    text
}

/// Renders a message as one line: each entry as `format_entry` renders it,
/// the snapshot as `format_snapshot` renders it, the empty snapshot where
/// the message has none, and the payload by the strategy in use.
pub fn format_message<F: CustomFormatter>(slot: &FormatterSlot<F>, msg: &Message) -> (text: String)
    ensures
        is_message_rendering(&slot.strategy(), msg@, text@),
{
    let mut entries: Vec<String> = Vec::new();
    let mut i: usize = 0;
    while i < msg.entries.len()
        invariant
            i <= msg.entries.len(),
            entries.len() == i,
            forall|k: int|
                0 <= k < i ==> is_entry_rendering(
                    &slot.strategy(),
                    msg.entries[k]@,
                    (#[trigger] entries[k])@,
                ),
        decreases msg.entries.len() - i,
    {
        entries.push(format_entry(slot, &msg.entries[i]));
        i += 1;
    }
    let snapshot = match &msg.snapshot {
        Some(snapshot) => format_snapshot(slot, snapshot),
        None => {
            let empty = Snapshot { data: Payload::Prost(Vec::new()), metadata: None };
            format_snapshot(slot, &empty)
        },
    };
    let context = slot.active().format_message_context(&msg.context);
    let text = render_message(&entries, snapshot.as_str(), context.as_str(), msg);
    proof {
        let texts = texts_of(entries@);
        assert(are_entry_renderings(&slot.strategy(), msg@.entries, texts)) by {
            assert forall|k: int| 0 <= k < msg@.entries.len() implies is_entry_rendering(
                &slot.strategy(),
                msg@.entries[k],
                #[trigger] texts[k],
            ) by {
                assert(entries[k]@ == texts[k]);
            }
        }
    }
    text
}

/// A log entry as the default strategy renders it.
pub open spec fn default_entry_text(entry: EntryView) -> Seq<char> {
    entry_text(default_text(entry.context), default_text(entry.data), entry)
}

/// A configuration change as the default strategy renders it.
pub open spec fn default_confchange_text(change: ConfChangeView) -> Seq<char> {
    confchange_text(default_text(change.context), change)
}

/// A batch of configuration changes as the default strategy renders it.
pub open spec fn default_confchangev2_text(batch: ConfChangeV2View) -> Seq<char> {
    confchangev2_text(default_text(batch.context), batch)
}

/// A snapshot as the default strategy renders it.
pub open spec fn default_snapshot_text(snapshot: SnapshotView) -> Seq<char> {
    snapshot_text(default_text(snapshot.data), snapshot)
}

/// A message as the default strategy renders it.
pub open spec fn default_message_text(message: MessageView) -> Seq<char> {
    message_text(
        Seq::new(message.entries.len(), |i: int| default_entry_text(message.entries[i])),
        default_snapshot_text(message.snapshot),
        default_text(message.context),
        message,
    )
}

/// The default strategy gives a payload the same text at each of the six
/// sites: its generic rendering, and no other.
pub proof fn law_default_is_generic(site: Site, payload: PayloadView, text: Seq<char>)
    ensures
        DefaultFormatter.renders(site, payload, text) <==> text == default_text(payload),
{
}

/// The default strategy does not look at the representation: at any two
/// sites, payloads with the same bytes are given the same texts.
pub proof fn law_default_ignores_representation(
    first_site: Site,
    first: PayloadView,
    second_site: Site,
    second: PayloadView,
    text: Seq<char>,
)
    requires
        first.bytes() == second.bytes(),
    ensures
        DefaultFormatter.renders(first_site, first, text) <==> DefaultFormatter.renders(
            second_site,
            second,
            text,
        ),
{
}

/// Under the default strategy a log entry has exactly one rendering.
pub proof fn law_default_entry(entry: EntryView, text: Seq<char>)
    ensures
        is_entry_rendering(&DefaultFormatter, entry, text) <==> text == default_entry_text(entry),
{
    if text == default_entry_text(entry) {
        let context = default_text(entry.context);
        let data = default_text(entry.data);
        assert(text == entry_text(context, data, entry));
    }
}

/// Under the default strategy a configuration change has exactly one
/// rendering.
pub proof fn law_default_confchange(change: ConfChangeView, text: Seq<char>)
    ensures
        is_confchange_rendering(&DefaultFormatter, change, text) <==> text
            == default_confchange_text(change),
{
    if text == default_confchange_text(change) {
        assert(text == confchange_text(default_text(change.context), change));
    }
}

/// Under the default strategy a batch of configuration changes has exactly
/// one rendering.
pub proof fn law_default_confchangev2(batch: ConfChangeV2View, text: Seq<char>)
    ensures
        is_confchangev2_rendering(&DefaultFormatter, batch, text) <==> text
            == default_confchangev2_text(batch),
{
    if text == default_confchangev2_text(batch) {
        assert(text == confchangev2_text(default_text(batch.context), batch));
    }
}

/// Under the default strategy a snapshot has exactly one rendering.
pub proof fn law_default_snapshot(snapshot: SnapshotView, text: Seq<char>)
    ensures
        is_snapshot_rendering(&DefaultFormatter, snapshot, text) <==> text
            == default_snapshot_text(snapshot),
{
    if text == default_snapshot_text(snapshot) {
        assert(text == snapshot_text(default_text(snapshot.data), snapshot));
    }
}

/// Under the default strategy a message has exactly one rendering.
pub proof fn law_default_message(message: MessageView, text: Seq<char>)
    ensures
        is_message_rendering(&DefaultFormatter, message, text) <==> text == default_message_text(
            message,
        ),
{
    let expected = Seq::new(
        message.entries.len(),
        |i: int| default_entry_text(message.entries[i]),
    );
    if is_message_rendering(&DefaultFormatter, message, text) {
        let (entries, snapshot, context): (Seq<Seq<char>>, Seq<char>, Seq<char>) = choose|
            entries: Seq<Seq<char>>,
            snapshot: Seq<char>,
            context: Seq<char>,
        |
            #![trigger message_text(entries, snapshot, context, message)]
            are_entry_renderings(&DefaultFormatter, message.entries, entries)
                && is_snapshot_rendering(&DefaultFormatter, message.snapshot, snapshot)
                && DefaultFormatter.renders(Site::MessageContext, message.context, context) && text
                == message_text(entries, snapshot, context, message);
        assert forall|i: int| 0 <= i < entries.len() implies entries[i] == expected[i] by {
            law_default_entry(message.entries[i], entries[i]);
        }
        assert(entries =~= expected);
        law_default_snapshot(message.snapshot, snapshot);
    }
    if text == default_message_text(message) {
        assert forall|i: int| 0 <= i < message.entries.len() implies is_entry_rendering(
            &DefaultFormatter,
            message.entries[i],
            #[trigger] expected[i],
        ) by {
            law_default_entry(message.entries[i], expected[i]);
        }
        law_default_snapshot(message.snapshot, default_snapshot_text(message.snapshot));
        assert(text == message_text(
            expected,
            default_snapshot_text(message.snapshot),
            default_text(message.context),
            message,
        ));
    }
}

/// In a rendering of a message with two entries, the entries field holds a
/// rendering of the first, then `, `, then a rendering of the second.
pub proof fn law_entries_field_of_two<F: CustomFormatter + ?Sized>(
    strategy: &F,
    message: MessageView,
    text: Seq<char>,
)
    requires
        message.entries.len() == 2,
        is_message_rendering(strategy, message, text),
    ensures
        exists|first: Seq<char>, second: Seq<char>, snapshot: Seq<char>, context: Seq<char>|
            #![trigger message_tail(snapshot, context, message), first + ", "@ + second]
            is_entry_rendering(strategy, message.entries[0], first) && is_entry_rendering(
                strategy,
                message.entries[1],
                second,
            ) && text == message_head(message) + (first + ", "@ + second) + message_tail(
                snapshot,
                context,
                message,
            ),
{
    let (entries, snapshot, context): (Seq<Seq<char>>, Seq<char>, Seq<char>) = choose|
        entries: Seq<Seq<char>>,
        snapshot: Seq<char>,
        context: Seq<char>,
    |
        #![trigger message_text(entries, snapshot, context, message)]
        are_entry_renderings(strategy, message.entries, entries) && is_snapshot_rendering(
            strategy,
            message.snapshot,
            snapshot,
        ) && strategy.renders(Site::MessageContext, message.context, context) && text
            == message_text(entries, snapshot, context, message);
    let first = entries[0];
    let second = entries[1];
    assert(entries.drop_last() =~= seq![first]);
    assert(join_texts(entries.drop_last(), ", "@) == first);
    assert(join_texts(entries, ", "@) == first + ", "@ + second);
    assert(text == message_head(message) + (first + ", "@ + second) + message_tail(
        snapshot,
        context,
        message,
    ));
}

/// Whatever a slot held, once a strategy has replaced it the strategy in
/// use is the new one.
pub proof fn law_replacement_is_observed<F: CustomFormatter>(slot: FormatterSlot<F>, formatter: F)
    ensures
        slot.replaced(formatter).strategy() == formatter,
{
}

} // verus!
