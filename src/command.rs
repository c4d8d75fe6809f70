//! The routing of captured output lines.
use crate::message::StreamMessage;
use vstd::prelude::*;

verus! {

/// What is sent on the channel for one captured line: the line itself, unless
/// output is kept off the webhook.
pub open spec fn forwarded(quiet: bool, line: String) -> Option<StreamMessage> {
    if quiet {
        None
    } else {
        Some(StreamMessage::Line(line))
    }
}

/// Decides what to send on the channel for a line that has been echoed
/// locally.
pub fn forward_line(quiet: bool, line: String) -> (r: Option<StreamMessage>)
    ensures
        r == forwarded(quiet, line),
{
    if quiet {
        None
    } else {
        Some(StreamMessage::Line(line))
    }
}

/// The texts of the lines that reach the channel when `lines` are read from
/// one stream, in order.
pub open spec fn sent_texts(quiet: bool, lines: Seq<String>) -> Seq<Seq<char>>
    decreases lines.len(),
{
    if lines.len() == 0 {
        Seq::empty()
    } else {
        let earlier = sent_texts(quiet, lines.drop_last());
        match forwarded(quiet, lines.last()) {
            Some(StreamMessage::Line(t)) => earlier.push(t@),
            _ => earlier,
        }
    }
}

/// The texts of the lines echoed locally when `lines` are read from one
/// stream: every one of them.
pub open spec fn echoed_texts(lines: Seq<String>) -> Seq<Seq<char>> {
    lines.map_values(|l: String| l@)
}

proof fn lemma_sent_all(lines: Seq<String>)
    ensures
        sent_texts(false, lines) == echoed_texts(lines),
    decreases lines.len(),
{
    if lines.len() > 0 {
        lemma_sent_all(lines.drop_last());
        assert(echoed_texts(lines.drop_last()).push(lines.last()@) =~= echoed_texts(lines));
    } else {
        assert(echoed_texts(lines) =~= Seq::<Seq<char>>::empty());
    }
}

/// When output is forwarded, the lines of the two streams that reach the
/// channel are, as a multiset, exactly the lines echoed locally, whichever way
/// the two streams interleave.
pub proof fn lemma_forwarded_match_echoed(out_lines: Seq<String>, err_lines: Seq<String>)
    ensures
        sent_texts(false, out_lines).to_multiset().add(sent_texts(false, err_lines).to_multiset())
            == (echoed_texts(out_lines) + echoed_texts(err_lines)).to_multiset(),
{
    lemma_sent_all(out_lines);
    lemma_sent_all(err_lines);
    vstd::seq_lib::lemma_multiset_commutative(echoed_texts(out_lines), echoed_texts(err_lines));
}

} // verus!
