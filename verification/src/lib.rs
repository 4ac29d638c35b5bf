//! A minimal on-chain program: a single `initialize` instruction that logs a
//! greeting naming the program's own identifier and succeeds unconditionally.
//!
//! The instruction touches no accounts and keeps no state: its whole
//! observable behaviour is the one log line it emits and the success it
//! returns, and both are pinned down by the contracts below.

use vstd::prelude::*;
use vstd::string::StringExecFns;

verus! {

/// The base58 text of a 32-byte key, as the key type of the runtime prints it.
pub uninterp spec fn base58_of(bytes: Seq<u8>) -> Seq<char>;

/// The accounts that the `initialize` instruction validates: none.
pub struct Initialize {}

/// A program identifier: the 32 raw bytes of the key.
pub struct ProgramId {
    pub bytes: [u8; 32],
}

impl View for ProgramId {
    type V = Seq<u8>;

    open spec fn view(&self) -> Seq<u8> {
        self.bytes@
    }
}

/// What an instruction handler is given: the identifier of the executing
/// program and the validated accounts.
pub struct Context {
    pub program_id: ProgramId,
    pub accounts: Initialize,
}

/// The error an instruction would report. `initialize` has no failure path:
/// its contract says it never returns one of these.
pub struct InstructionError {}

/// The log line that `initialize` emits for a given program identifier.
pub open spec fn greeting_of(id: Seq<u8>) -> Seq<char> {
    "Greetings from: "@ + base58_of(id)
}

/// Relies on `anchor_lang::prelude::Pubkey` (`solana_address::Address`):
/// its `Debug` form is the base58 text of its 32 bytes, a function of the
/// bytes alone.
#[verifier::external_body]
fn base58_text(bytes: &[u8; 32]) -> (r: String)
    ensures
        r@ == base58_of(bytes@),
{
    let key = anchor_lang::prelude::Pubkey::new_from_array(*bytes);
    format!("{:?}", key)
}

/// The greeting that names the given program identifier.
pub fn greeting(id: &ProgramId) -> (r: String)
    ensures
        r@ == greeting_of(id@),
{
    let mut line = String::from_str("Greetings from: ");
    let text = base58_text(&id.bytes);
    line.append(text.as_str());
    line
}

/// The `initialize` instruction: appends one greeting line to the log and
/// succeeds. It succeeds on every context, reads nothing but the program
/// identifier, and changes no state: the log gains exactly one line and
/// everything already in it stays as it was.
pub fn initialize(ctx: &Context, log: &mut Vec<String>) -> (r: Result<(), InstructionError>)
    ensures
        r is Ok,
        final(log)@.len() == old(log)@.len() + 1,
        forall|i: int| 0 <= i < old(log)@.len() ==> final(log)@[i] == old(log)@[i],
        final(log)@[old(log)@.len() as int]@ == greeting_of(ctx.program_id@),
{
    let line = greeting(&ctx.program_id);
    log.push(line);
    Ok(())
}

} // verus!
