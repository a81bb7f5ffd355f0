//! Serial-line logic: the XOR cipher of the UART demo, the line reverser,
//! and the prompt reader of the sensor console.
use vstd::prelude::*;
use crate::collections::{
    line_clear, line_items, line_new, line_push, line_to_vec, prompt_clear, prompt_items,
    prompt_new, prompt_push, prompt_to_vec,
};

verus! {

/// The key the UART demo encrypts with.
pub const CIPHER_KEY: u8 = 151;

/// The carriage return that ends a line.
pub const CARRIAGE_RETURN: u8 = 13;

/// Every byte of `message` XORed with `key`.
pub open spec fn xored(message: Seq<u8>, key: u8) -> Seq<u8> {
    message.map_values(|b: u8| b ^ key)
}

/// XORs every byte of `message` with `key`; the same call decrypts.
pub fn xor_cipher(message: &[u8], key: u8) -> (out: Vec<u8>)
    ensures
        out@ == xored(message@, key),
{
    let mut out: Vec<u8> = Vec::new();
    let mut i: usize = 0;
    while i < message.len()
        invariant
            0 <= i <= message.len(),
            out@ == xored(message@.take(i as int), key),
        decreases message.len() - i,
    {
        out.push(message[i] ^ key);
        proof {
            assert(xored(message@.take(i + 1), key) =~= xored(message@.take(i as int), key).push(
                message@[i as int] ^ key,
            ));
        }
        i = i + 1;
    }
    assert(message@.take(message.len() as int) =~= message@);
    out
}

/// Encrypting twice with the same key gives the message back.
pub proof fn lemma_xor_round_trip(message: Seq<u8>, key: u8)
    ensures
        xored(xored(message, key), key) == message,
{
    assert forall|i: int| 0 <= i < message.len() implies #[trigger] xored(
        xored(message, key),
        key,
    )[i] == message[i] by {
        let b = message[i];
        assert((b ^ key) ^ key == b) by (bit_vector);
    }
    assert(xored(xored(message, key), key) =~= message);
}

/// The line reverser: it collects up to 32 received bytes; a carriage
/// return sends back the collected bytes in reverse order and starts a new
/// line, which begins with that carriage return.
pub struct LineReverser {
    pub buffer: heapless::Vec<u8, 32>,
}

impl LineReverser {
    /// What the reverser holds.
    pub open spec fn held(&self) -> Seq<u8> {
        line_items(self.buffer)
    }

    /// An empty reverser.
    pub fn new() -> (r: Self)
        ensures
            r.held() == Seq::<u8>::empty(),
    {
        LineReverser { buffer: line_new() }
    }

    /// Takes one received byte. On a carriage return, returns what was
    /// held, reversed, and empties the buffer first; then the byte is kept
    /// if the buffer has room (a byte that finds the buffer full is dropped).
    pub fn feed(&mut self, input_byte: u8) -> (reversed: Option<Vec<u8>>)
        ensures
            input_byte == CARRIAGE_RETURN ==> (reversed matches Some(v) && v@ == old(
                self,
            ).held().reverse()) && final(self).held() == seq![CARRIAGE_RETURN],
            input_byte != CARRIAGE_RETURN ==> reversed is None && final(self).held() == (if old(
                self,
            ).held().len() < 32 {
                old(self).held().push(input_byte)
            } else {
                old(self).held()
            }),
    {
        let mut out: Option<Vec<u8>> = None;
        if input_byte == CARRIAGE_RETURN {
            let held = line_to_vec(&self.buffer);
            let mut rev: Vec<u8> = Vec::new();
            let mut i: usize = held.len();
            while i > 0
                invariant
                    0 <= i <= held.len(),
                    rev@ == held@.subrange(i as int, held.len() as int).reverse(),
                decreases i,
            {
                i = i - 1;
                rev.push(held[i]);
                proof {
                    assert(held@.subrange(i as int, held.len() as int).reverse() =~= held@.subrange(
                        i + 1,
                        held.len() as int,
                    ).reverse().push(held@[i as int]));
                }
            }
            assert(held@.subrange(0, held.len() as int) =~= held@);
            out = Some(rev);
            line_clear(&mut self.buffer);
        }
        let _ = line_push(&mut self.buffer, input_byte);
        proof {
            if input_byte == CARRIAGE_RETURN {
                assert(line_items(self.buffer) =~= seq![CARRIAGE_RETURN]);
            }
        }
        out
    }
}

/// What the sensor console asks for.
#[derive(Debug, Clone, Copy, PartialEq, Eq, Structural)]
pub enum Prompt {
    Accelerometer,
    Magnetometer,
    Invalid,
}

/// The prompt named by a line with surrounding whitespace trimmed: "acc" or "mag".
pub open spec fn prompt_for(trimmed: Seq<u8>) -> Prompt {
    if trimmed == seq![97u8, 99u8, 99u8] {
        Prompt::Accelerometer
    } else if trimmed == seq![109u8, 97u8, 103u8] {
        Prompt::Magnetometer
    } else {
        Prompt::Invalid
    }
}

/// The prompt a trimmed line asks for.
pub fn classify_prompt(trimmed: &[u8]) -> (p: Prompt)
    ensures
        p == prompt_for(trimmed@),
{
    if trimmed.len() == 3 && trimmed[0] == 97 && trimmed[1] == 99 && trimmed[2] == 99 {
        assert(trimmed@ =~= seq![97u8, 99u8, 99u8]);
        Prompt::Accelerometer
    } else if trimmed.len() == 3 && trimmed[0] == 109 && trimmed[1] == 97 && trimmed[2] == 103 {
        assert(trimmed@ =~= seq![109u8, 97u8, 103u8]);
        Prompt::Magnetometer
    } else {
        Prompt::Invalid
    }
}

/// What the console does with one received byte.
#[derive(Debug)]
pub struct PromptInput {
    /// The buffer was full, so the byte was not kept.
    pub overflowed: bool,
    /// On a carriage return, the line collected so far (including that
    /// carriage return if it was kept); the buffer is then emptied.
    pub line: Option<Vec<u8>>,
}

/// The sensor console's input buffer of up to 64 bytes.
pub struct PromptReader {
    pub buffer: heapless::Vec<u8, 64>,
}

impl PromptReader {
    /// What the buffer holds.
    pub open spec fn held(&self) -> Seq<u8> {
        prompt_items(self.buffer)
    }

    /// An empty buffer.
    pub fn new() -> (r: Self)
        ensures
            r.held() == Seq::<u8>::empty(),
    {
        PromptReader { buffer: prompt_new() }
    }

    /// Takes one received byte: keeps it when there is room; a carriage
    /// return hands out the line and empties the buffer.
    pub fn feed(&mut self, input_byte: u8) -> (input: PromptInput)
        ensures
            input.overflowed == (old(self).held().len() >= 64),
            ({
                let kept = if old(self).held().len() < 64 {
                    old(self).held().push(input_byte)
                } else {
                    old(self).held()
                };
                &&& input_byte == CARRIAGE_RETURN ==> (input.line matches Some(l) && l@ == kept)
                    && final(self).held() == Seq::<u8>::empty()
                &&& input_byte != CARRIAGE_RETURN ==> input.line is None && final(self).held() == kept
            }),
    {
        let overflowed = prompt_push(&mut self.buffer, input_byte).is_err();
        let mut line: Option<Vec<u8>> = None;
        if input_byte == CARRIAGE_RETURN {
            line = Some(prompt_to_vec(&self.buffer));
            prompt_clear(&mut self.buffer);
        }
        PromptInput { overflowed, line }
    }
}

} // verus!
