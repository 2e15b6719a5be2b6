use crate::action::{no_close, ActionView};
use crate::handlers::PtyHandler;
use vstd::prelude::*;

verus! {

/// `vte::Parser`, the state of the parser of the `vte` crate. Nothing of
/// what it holds is visible here.
#[verifier::external_type_specification]
#[verifier::external_body]
pub struct ExParser(vte::Parser);

/// The bytes that `parser` has consumed since it was created, oldest first.
pub uninterp spec fn fed(parser: vte::Parser) -> Seq<u8>;

/// The printable characters, control bytes and control sequences that a
/// `vte::Parser` reports when it consumes `byte` after having consumed
/// `history`, in the order in which it reports them.
pub uninterp spec fn emitted(history: Seq<u8>, byte: u8) -> Seq<ActionView>;

/// `vte::Parser::new`: a parser in its ground state that has consumed nothing.
#[verifier::external_body]
fn parser_new() -> (parser: vte::Parser)
    ensures
        fed(parser) == Seq::<u8>::empty(),
{
    vte::Parser::new()
}

/// `vte::Parser::advance` with `handler` as its performer. The parser
/// consumes `byte`; what it reports depends on nothing but the bytes it has
/// consumed. Each `print`, `execute` and `csi_dispatch` that it calls adds
/// one action to `handler.tx`, and its other calls add none, so `handler.tx`
/// grows by exactly the actions named by [`emitted`], none of which is
/// `Close`.
#[verifier::external_body]
fn parser_advance(parser: &mut vte::Parser, handler: &mut PtyHandler, byte: u8)
    ensures
        fed(*final(parser)) == fed(*old(parser)).push(byte),
        final(handler).tx.deep_view() == old(handler).tx.deep_view() + emitted(
            fed(*old(parser)),
            byte,
        ),
        no_close(final(handler).tx.deep_view().skip(old(handler).tx.len() as int)),
{
    parser.advance(handler, byte)
}

/// The actions that a stream of `bytes` decodes to, for an interpreter that
/// has consumed `history` before.
pub open spec fn decoded(history: Seq<u8>, bytes: Seq<u8>) -> Seq<ActionView>
    decreases bytes.len(),
{
    if bytes.len() == 0 {
        Seq::empty()
    } else {
        emitted(history, bytes[0]) + decoded(history.push(bytes[0]), bytes.drop_first())
    }
}

/// The actions that the streams in `chunks` decode to when they are handed
/// over one after the other, for an interpreter that has consumed `history`
/// before.
pub open spec fn decoded_in_chunks(history: Seq<u8>, chunks: Seq<Seq<u8>>) -> Seq<ActionView>
    decreases chunks.len(),
{
    if chunks.len() == 0 {
        Seq::empty()
    } else {
        decoded(history, chunks[0]) + decoded_in_chunks(history + chunks[0], chunks.drop_first())
    }
}

/// Decoding `first + second` gives what decoding `first` gives, followed by
/// what decoding `second` gives once `first` has been consumed.
pub proof fn lemma_decoded_concat(history: Seq<u8>, first: Seq<u8>, second: Seq<u8>)
    ensures
        decoded(history, first + second) == decoded(history, first) + decoded(
            history + first,
            second,
        ),
    decreases first.len(),
{
    if first.len() == 0 {
        assert(first + second =~= second);
        assert(history + first =~= history);
    } else {
        let rest = first.drop_first();
        lemma_decoded_concat(history.push(first[0]), rest, second);
        assert((first + second).drop_first() =~= rest + second);
        assert(history.push(first[0]) + rest =~= history + first);
    }
}

/// Chunk independence: however a byte stream is cut into chunks, the chunks
/// decode to the actions that the whole stream decodes to.
pub proof fn lemma_chunks_do_not_matter(history: Seq<u8>, chunks: Seq<Seq<u8>>)
    ensures
        decoded_in_chunks(history, chunks) == decoded(history, chunks.flatten()),
    decreases chunks.len(),
{
    if chunks.len() == 0 {
        assert(chunks.flatten() =~= Seq::<u8>::empty());
    } else {
        lemma_chunks_do_not_matter(history + chunks[0], chunks.drop_first());
        lemma_decoded_concat(history, chunks[0], chunks.drop_first().flatten());
        assert(chunks.flatten() =~= chunks[0] + chunks.drop_first().flatten());
    }
}

/// The escape sequence interpreter: a resumable decoder from bytes to
/// actions.
pub struct Interpreter {
    parser: vte::Parser,
}

impl Interpreter {
    /// The bytes consumed so far, oldest first.
    pub closed spec fn history(&self) -> Seq<u8> {
        fed(self.parser)
    }

    /// An interpreter that has consumed nothing.
    pub fn new() -> (interpreter: Self)
        ensures
            interpreter.history() == Seq::<u8>::empty(),
    {
        Interpreter { parser: parser_new() }
    }

    /// Consumes one byte and appends to `handler.tx` the actions that it
    /// completes.
    pub fn advance(&mut self, handler: &mut PtyHandler, byte: u8)
        ensures
            final(self).history() == old(self).history().push(byte),
            final(handler).tx.deep_view() == old(handler).tx.deep_view() + emitted(
                old(self).history(),
                byte,
            ),
            no_close(final(handler).tx.deep_view().skip(old(handler).tx.len() as int)),
    {
        parser_advance(&mut self.parser, handler, byte);
    }

    /// Consumes a chunk of bytes, first to last, and appends to `handler.tx`
    /// the actions that they complete. A sequence may begin in one chunk and
    /// end in a later one.
    pub fn feed(&mut self, handler: &mut PtyHandler, chunk: &[u8])
        ensures
            final(self).history() == old(self).history() + chunk@,
            final(handler).tx.deep_view() == old(handler).tx.deep_view() + decoded(
                old(self).history(),
                chunk@,
            ),
            no_close(final(handler).tx.deep_view().skip(old(handler).tx.len() as int)),
    {
        let mut i: usize = 0;
        assert(chunk@.subrange(0, chunk.len() as int) =~= chunk@);
        while i < chunk.len()
            invariant
                i <= chunk.len(),
                self.history() == old(self).history() + chunk@.subrange(0, i as int),
                handler.tx.deep_view() + decoded(self.history(), chunk@.subrange(i as int, chunk.len() as int))
                    == old(handler).tx.deep_view() + decoded(old(self).history(), chunk@),
                old(handler).tx.len() <= handler.tx.len(),
                no_close(handler.tx.deep_view().skip(old(handler).tx.len() as int)),
            decreases chunk.len() - i,
        {
            let ghost rest = chunk@.subrange(i as int, chunk.len() as int);
            let ghost before = handler.tx.deep_view();
            let ghost seen = self.history();
            self.advance(handler, chunk[i]);
            proof {
                let start = old(handler).tx.len() as int;
                let appended = handler.tx.deep_view().skip(start);
                assert forall|k: int| 0 <= k < appended.len() implies !(appended[k] is Close) by {
                    if start + k < before.len() {
                        assert(appended[k] == before.skip(start)[k]);
                    } else {
                        assert(appended[k] == handler.tx.deep_view().skip(before.len() as int)[start
                            + k - before.len()]);
                    }
                }
                assert(rest.drop_first() =~= chunk@.subrange(i + 1, chunk.len() as int));
                assert(before + emitted(seen, rest[0]) + decoded(seen.push(rest[0]), rest.drop_first())
                    =~= before + decoded(seen, rest));
                assert(seen.push(chunk@[i as int]) =~= old(self).history() + chunk@.subrange(0, i + 1));
            }
            i += 1;
        }
        assert(chunk@.subrange(0, i as int) =~= chunk@);
        assert(handler.tx.deep_view() + Seq::<ActionView>::empty() =~= handler.tx.deep_view());
    }
}

} // verus!
