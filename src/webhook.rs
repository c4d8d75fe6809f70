//! Batching of captured lines and the shape of what goes to the webhook.
use crate::cli::{Args, WebhookFormat};
use crate::message::StreamMessage;
use crate::text::{join_with, joined, string_views, titled, with_title};
use vstd::prelude::*;

verus! {

/// The text of the compact JSON object `{key: value}`, both as JSON strings.
pub uninterp spec fn json_object_text(key: Seq<char>, value: Seq<char>) -> Seq<char>;

/// Relies on serde_json: a `Value::Object` holding one `Value::String` under
/// `key`, written out by `Value`'s `Display`, which is compact JSON and depends
/// on `key` and `value` alone.
#[verifier::external_body]
fn json_object_one_field(key: &str, value: &str) -> (r: String)
    ensures
        r@ == json_object_text(key@, value@),
{
    let mut map = serde_json::Map::new();
    map.insert(key.to_string(), serde_json::Value::String(value.to_string()));
    serde_json::Value::Object(map).to_string()
}

/// The field that carries the message text in every payload shape.
pub open spec fn text_key() -> Seq<char> {
    seq!['t', 'e', 'x', 't']
}

/// The payload that carries `message` in the given shape.
pub open spec fn payload_of(message: Seq<char>, format: WebhookFormat) -> Seq<char> {
    match format {
        WebhookFormat::GoogleChat => json_object_text(text_key(), message),
        WebhookFormat::Slack => json_object_text(text_key(), message),
    }
}

/// Builds the JSON body that carries `message` in the given shape.
pub fn create_payload(message: &str, format: &WebhookFormat) -> (r: String)
    ensures
        r@ == payload_of(message@, *format),
{
    proof {
        reveal_strlit("text");
        assert("text"@ =~= text_key());
    }
    match format {
        WebhookFormat::GoogleChat => json_object_one_field("text", message),
        WebhookFormat::Slack => json_object_one_field("text", message),
    }
}

/// What to do with one payload.
#[derive(Debug)]
pub enum Delivery {
    /// Print this line locally and send nothing.
    Print(String),
    /// Send `body` to `url` in one request.
    Post { url: String, body: String },
    /// No endpoint is configured: do nothing.
    Skip,
}

/// The line printed in place of a delivery in dry-run mode.
pub open spec fn dry_run_line(payload: Seq<char>) -> Seq<char> {
    seq!['[', 'D', 'R', 'Y', ' ', 'R', 'U', 'N', ']', ' ', 'W', 'o', 'u', 'l', 'd', ' ', 's', 'e', 'n', 'd', ':', ' ']
        + payload
}


/// Decides how `payload` is delivered. Dry-run mode never reaches the network,
/// whatever endpoint is set.
pub fn send_payload(payload: &str, webhook_url: &Option<String>, dry_run: bool) -> (r: Delivery)
    ensures
        dry_run ==> (r matches Delivery::Print(line) && line@ == dry_run_line(payload@)),
        !dry_run && webhook_url is None ==> r is Skip,
        !dry_run && webhook_url is Some ==> (r matches Delivery::Post { url, body }
            && url@ == webhook_url->0@ && body@ == payload@),
{
    if dry_run {
        let mut line = String::from_str("[DRY RUN] Would send: ");
        line.append(payload);
        proof {
            reveal_strlit("[DRY RUN] Would send: ");
        }
        Delivery::Print(line)
    } else {
        match webhook_url {
            Some(url) => Delivery::Post { url: url.clone(), body: payload.to_owned() },
            None => Delivery::Skip,
        }
    }
}

/// Decides how the text `message` is delivered under `args`.
pub fn send_message(args: &Args, message: &str) -> (r: Delivery)
    ensures
        args.dry_run ==> (r matches Delivery::Print(line)
            && line@ == dry_run_line(payload_of(message@, args.format))),
        !args.dry_run && args.webhook_url is None ==> r is Skip,
        !args.dry_run && args.webhook_url is Some ==> (r matches Delivery::Post { url, body }
            && url@ == args.webhook_url->0@ && body@ == payload_of(message@, args.format)),
{
    let payload = create_payload(message, &args.format);
    send_payload(payload.as_str(), &args.webhook_url, args.dry_run)
}

/// The message that delivers `batch`: its lines joined by newlines, under the
/// title; none for an empty batch.
pub open spec fn batch_message(title: Option<String>, batch: Seq<Seq<char>>) -> Option<Seq<char>> {
    if batch.len() == 0 {
        None
    } else {
        Some(titled(title, joined(batch, seq!['\n'])))
    }
}

/// The view of an optional string.
pub open spec fn opt_view(s: Option<String>) -> Option<Seq<char>> {
    match s {
        Some(t) => Some(t@),
        None => None,
    }
}

/// Empties `buffer` and returns the message that delivers what it held. An
/// empty buffer gives no message, so flushing it delivers nothing.
pub fn send_buffered_lines(title: &Option<String>, buffer: &mut Vec<String>) -> (r: Option<String>)
    ensures
        final(buffer)@.len() == 0,
        opt_view(r) == batch_message(*title, string_views(old(buffer)@)),
        old(buffer)@.len() == 0 ==> r is None,
{
    if buffer.len() == 0 {
        return None;
    }
    let combined = join_with(buffer, "\n");
    proof {
        reveal_strlit("\n");
        assert("\n"@ =~= seq!['\n']);
    }
    let message = with_title(title, combined.as_str());
    buffer.clear();
    Some(message)
}

/// What the dispatcher learns at one turn of its loop.
#[derive(Debug)]
pub enum SenderEvent {
    /// An event came off the channel.
    Received(StreamMessage),
    /// The quiescence timeout passed with no event.
    TimedOut,
    /// Every sender is gone.
    Closed,
}

/// What the dispatcher does in answer to one event.
#[derive(Debug)]
pub struct SenderStep {
    /// A message to hand to the notifier, if a flush produced one.
    pub delivery: Option<String>,
    /// The loop ends here.
    pub finished: bool,
}

/// Whether the batch, once `line` is appended, reaches the threshold `max`.
pub open spec fn fills(batch: Seq<Seq<char>>, max: nat) -> bool {
    batch.len() + 1 >= max
}

/// The lines that `event` flushes from `batch`; empty when it flushes nothing.
pub open spec fn flushed_by(batch: Seq<Seq<char>>, max: nat, event: SenderEvent) -> Seq<Seq<char>> {
    match event {
        SenderEvent::Received(StreamMessage::Line(t)) => if fills(batch, max) {
            batch.push(t@)
        } else {
            Seq::empty()
        },
        _ => batch,
    }
}

/// The batch that is kept after `event`.
pub open spec fn kept_after(batch: Seq<Seq<char>>, max: nat, event: SenderEvent) -> Seq<Seq<char>> {
    match event {
        SenderEvent::Received(StreamMessage::Line(t)) => if fills(batch, max) {
            Seq::empty()
        } else {
            batch.push(t@)
        },
        _ => Seq::empty(),
    }
}

/// Whether `event` ends the dispatcher's loop.
pub open spec fn ends_loop(event: SenderEvent) -> bool {
    match event {
        SenderEvent::Received(StreamMessage::CommandFinished) => true,
        SenderEvent::Closed => true,
        _ => false,
    }
}

/// The sole owner of the batch: collects lines and decides when they go out.
pub struct WebhookSender {
    title: Option<String>,
    buffer_size: usize,
    buffer: Vec<String>,
}

impl WebhookSender {
    /// The lines batched and not yet delivered.
    pub closed spec fn batch(&self) -> Seq<Seq<char>> {
        string_views(self.buffer@)
    }

    /// The title put in front of each delivery.
    pub closed spec fn title(&self) -> Option<String> {
        self.title
    }

    /// The number of lines at which a batch is delivered at once.
    pub closed spec fn max_lines(&self) -> nat {
        self.buffer_size as nat
    }

    /// A dispatcher for one invocation, with an empty batch.
    pub fn new(args: &Args) -> (r: Self)
        ensures
            r.batch().len() == 0,
            r.title() == args.title,
            r.max_lines() == args.buffer_size,
    {
        let title = match &args.title {
            Some(t) => Some(t.clone()),
            None => None,
        };
        WebhookSender { title, buffer_size: args.buffer_size, buffer: Vec::new() }
    }

    /// Takes one event. A line joins the batch, and a batch that reaches the
    /// threshold goes out at once; a timeout or an explicit flush sends what is
    /// batched; the end of the command sends what is batched and ends the loop.
    /// An empty batch is never sent.
    pub fn step(&mut self, event: SenderEvent) -> (r: SenderStep)
        ensures
            final(self).title() == old(self).title(),
            final(self).max_lines() == old(self).max_lines(),
            final(self).batch() == kept_after(old(self).batch(), old(self).max_lines(), event),
            opt_view(r.delivery) == batch_message(
                old(self).title(),
                flushed_by(old(self).batch(), old(self).max_lines(), event),
            ),
            r.finished == ends_loop(event),
    {
        let ghost before = self.buffer@;
        match event {
            SenderEvent::Received(StreamMessage::Line(line)) => {
                let ghost t = line@;
                self.buffer.push(line);
                proof {
                    assert(string_views(self.buffer@) =~= string_views(before).push(t));
                }
                if self.buffer.len() >= self.buffer_size {
                    let delivery = send_buffered_lines(&self.title, &mut self.buffer);
                    proof {
                        assert(string_views(self.buffer@) =~= Seq::<Seq<char>>::empty());
                    }
                    SenderStep { delivery, finished: false }
                } else {
                    SenderStep { delivery: None, finished: false }
                }
            },
            SenderEvent::Received(StreamMessage::CommandFinished) | SenderEvent::Closed => {
                let delivery = send_buffered_lines(&self.title, &mut self.buffer);
                proof {
                    assert(string_views(self.buffer@) =~= Seq::<Seq<char>>::empty());
                }
                SenderStep { delivery, finished: true }
            },
            SenderEvent::Received(StreamMessage::Flush) | SenderEvent::TimedOut => {
                let delivery = send_buffered_lines(&self.title, &mut self.buffer);
                proof {
                    assert(string_views(self.buffer@) =~= Seq::<Seq<char>>::empty());
                }
                SenderStep { delivery, finished: false }
            },
        }
    }
}

/// The event that carries one captured line.
pub open spec fn line_event(line: String) -> SenderEvent {
    SenderEvent::Received(StreamMessage::Line(line))
}

/// Feeds `lines`, in order, to a dispatcher whose batch is `batch` and whose
/// threshold is `max`, with no other event between them: the batch kept at the
/// end, and the batches flushed on the way, in order.
pub open spec fn feed_lines(batch: Seq<Seq<char>>, max: nat, lines: Seq<String>) -> (
    Seq<Seq<char>>,
    Seq<Seq<Seq<char>>>,
)
    decreases lines.len(),
{
    if lines.len() == 0 {
        (batch, Seq::empty())
    } else {
        let (kept, out) = feed_lines(batch, max, lines.drop_last());
        let event = line_event(lines.last());
        let flushed = flushed_by(kept, max, event);
        (kept_after(kept, max, event), if flushed.len() > 0 {
            out.push(flushed)
        } else {
            out
        })
    }
}

proof fn lemma_feed_shape(lines: Seq<String>, max: nat)
    requires
        max >= 1,
    ensures
        ({
            let (kept, out) = feed_lines(Seq::empty(), max, lines);
            let v = string_views(lines);
            &&& lines.len() == out.len() * max + kept.len()
            &&& kept.len() < max
            &&& kept == v.subrange((out.len() * max) as int, lines.len() as int)
            &&& forall|k: int|
                0 <= k < out.len() ==> #[trigger] out[k] == v.subrange(k * max, k * max + max)
        }),
    decreases lines.len(),
{
    let v = string_views(lines);
    if lines.len() == 0 {
        assert(v.subrange(0, 0) =~= Seq::<Seq<char>>::empty());
    } else {
        let prev = lines.drop_last();
        lemma_feed_shape(prev, max);
        let (kept0, out0) = feed_lines(Seq::empty(), max, prev);
        let (kept, out) = feed_lines(Seq::empty(), max, lines);
        let pv = string_views(prev);
        let n = lines.len() as int;
        let q0 = out0.len() as int;
        assert(pv =~= v.subrange(0, n - 1));
        assert forall|a: int, b: int| 0 <= a <= b <= n - 1 implies pv.subrange(a, b) =~= v.subrange(
            a,
            b,
        ) by {}
        assert(q0 * max >= 0) by (nonlinear_arith)
            requires
                q0 >= 0,
                max >= 1,
        ;
        assert(kept0.push(lines.last()@) =~= v.subrange(q0 * max, n));
        if kept0.len() + 1 >= max {
            assert((q0 + 1) * max == q0 * max + max) by (nonlinear_arith);
            assert(out.len() == q0 + 1);
            assert(kept.len() == 0);
            assert(v.subrange(n, n) =~= Seq::<Seq<char>>::empty());
            assert forall|k: int| 0 <= k < out.len() implies #[trigger] out[k] == v.subrange(
                k * max,
                k * max + max,
            ) by {
                if k < q0 {
                    assert(out[k] == out0[k]);
                    assert(k * max + max <= q0 * max) by (nonlinear_arith)
                        requires
                            k < q0,
                            max >= 1,
                    ;
                    assert(k * max >= 0) by (nonlinear_arith)
                        requires
                            k >= 0,
                            max >= 1,
                    ;
                    assert(pv.subrange(k * max, k * max + max) =~= v.subrange(
                        k * max,
                        k * max + max,
                    ));
                }
            }
        } else {
            assert(out =~= out0);
            assert forall|k: int| 0 <= k < out.len() implies #[trigger] out[k] == v.subrange(
                k * max,
                k * max + max,
            ) by {
                assert(k * max + max <= q0 * max) by (nonlinear_arith)
                    requires
                        k < q0,
                        max >= 1,
                ;
                assert(k * max >= 0) by (nonlinear_arith)
                    requires
                        k >= 0,
                        max >= 1,
                ;
                assert(pv.subrange(k * max, k * max + max) =~= v.subrange(k * max, k * max + max));
            }
        }
        assert(lines.len() == out.len() * max + kept.len());
        assert(kept.len() < max);
        assert(kept =~= v.subrange((out.len() * max) as int, lines.len() as int));
    }
}

/// Fed N lines with threshold T and no timeout between them, a fresh
/// dispatcher delivers floor(N/T) batches by size, each of T consecutive lines
/// in order; the N mod T lines left over go out in exactly one more delivery
/// when the command finishes, which ends the loop, and none go out if nothing
/// is left over.
pub proof fn lemma_size_triggered_flushes(lines: Seq<String>, max: nat)
    requires
        max >= 1,
    ensures
        ({
            let (kept, out) = feed_lines(Seq::empty(), max, lines);
            let v = string_views(lines);
            let finish = SenderEvent::Received(StreamMessage::CommandFinished);
            &&& out.len() == lines.len() / max
            &&& forall|k: int|
                0 <= k < out.len() ==> #[trigger] out[k] == v.subrange(k * max, k * max + max)
            &&& kept == v.subrange(lines.len() - lines.len() % max, lines.len() as int)
            &&& kept.len() == lines.len() % max
            &&& flushed_by(kept, max, finish) == kept
            &&& kept_after(kept, max, finish).len() == 0
            &&& ends_loop(finish)
        }),
{
    lemma_feed_shape(lines, max);
    let (kept, out) = feed_lines(Seq::empty(), max, lines);
    vstd::arithmetic::div_mod::lemma_fundamental_div_mod_converse(
        lines.len() as int,
        max as int,
        out.len() as int,
        kept.len() as int,
    );
}

} // verus!
