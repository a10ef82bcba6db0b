//! One batch request carried through: its commands are handed out in
//! order, decoded, and each answer is written as the next response frame,
//! until the answers no longer fit in the response buffer.

use vstd::prelude::*;
use crate::wire::{le32, u32_bytes};
use crate::batch::{
    BatchRequest, BatchResponse, BatchResponseType, RawCommand, ResponseWriter, encode_records,
    frames_of, parse_batch_request, parse_frames, response_frame, response_type_code,
    lemma_parse_frames_len,
};
use crate::command::{BatchCommand, CommandView, decode_command, spec_decode_command};

verus! {

/// A batch being answered.
pub struct BatchRun {
    declared_count: u32,
    commands: Vec<RawCommand>,
    writer: ResponseWriter,
}

impl BatchRun {
    /// The command frames of the request.
    pub closed spec fn frames(&self) -> Seq<(u16, Seq<u8>)> {
        frames_of(self.commands@)
    }

    /// The count written in the request's header.
    pub closed spec fn declared_count(&self) -> u32 {
        self.declared_count
    }

    /// The response frames written so far, one per answered command.
    pub closed spec fn records(&self) -> Seq<(u8, Seq<u8>)> {
        self.writer.records()
    }

    /// The capacity of the response buffer.
    pub closed spec fn capacity(&self) -> usize {
        self.writer.capacity()
    }

    /// The number of commands answered so far.
    pub open spec fn answered(&self) -> nat {
        self.records().len()
    }

    pub closed spec fn wf(&self) -> bool {
        &&& self.writer.wf()
        &&& self.writer.records().len() <= self.commands@.len()
        &&& self.commands@.len() <= self.declared_count
    }

    /// The next command, decoded (meaningful while some are unanswered).
    pub open spec fn next_view(&self) -> CommandView {
        spec_decode_command(
            self.frames()[self.answered() as int].0,
            self.frames()[self.answered() as int].1,
        )
    }

    /// A frame of `len` payload bytes still fits in the response buffer.
    pub open spec fn fits(&self, len: nat) -> bool {
        4 + encode_records(self.records()).len() + 5 + len <= self.capacity()
    }

    /// Starts answering `request` into a buffer of `capacity` bytes; `None`
    /// when the request is shorter than its header.
    pub fn start(request: &[u8], capacity: usize) -> (r: Option<BatchRun>)
        ensures
            r is None <==> request@.len() < 4,
            r matches Some(run) ==> {
                &&& run.wf()
                &&& run.declared_count() == le32(request@, 0)
                &&& run.frames() == parse_frames(request@, 4, le32(request@, 0) as nat)
                &&& run.records() == Seq::<(u8, Seq<u8>)>::empty()
                &&& run.capacity() == capacity
            },
    {
        match parse_batch_request(request) {
            None => None,
            Some(BatchRequest { declared_count, commands }) => {
                proof {
                    lemma_parse_frames_len(request@, 4, le32(request@, 0) as nat);
                }
                Some(BatchRun { declared_count, commands, writer: ResponseWriter::new(capacity) })
            },
        }
    }

    /// The next step: `Done` when every command has been answered; a
    /// command the protocol refuses is answered here with an Error response
    /// carrying the refusal's text (`Refused`, or `Full` when that does not
    /// fit); any other command is handed out decoded, to be carried out
    /// and answered with [`BatchRun::answer`].
    pub fn next_step(&mut self) -> (r: Pending)
        requires
            old(self).wf(),
        ensures
            final(self).wf(),
            final(self).frames() == old(self).frames(),
            final(self).declared_count() == old(self).declared_count(),
            final(self).capacity() == old(self).capacity(),
            old(self).answered() == old(self).frames().len() ==> r is Done && final(self).records()
                == old(self).records(),
            old(self).answered() < old(self).frames().len() ==> match old(self).next_view() {
                CommandView::Invalid(m) => if old(self).fits(m.len()) {
                    r is Refused && final(self).records() == old(self).records().push(
                        (response_type_code(BatchResponseType::Error), m),
                    )
                } else {
                    r is Full && final(self).records() == old(self).records()
                },
                _ => (r matches Pending::Command(c) && c@ == old(self).next_view())
                    && final(self).records() == old(self).records(),
            },
    {
        let i = self.writer.count();
        if i >= self.commands.len() {
            return Pending::Done;
        }
        let c = decode_command(self.commands[i].cmd_type, self.commands[i].payload.as_slice());
        match c {
            BatchCommand::Invalid(m) => {
                if self.writer.push(BatchResponseType::Error, m.as_slice()) {
                    Pending::Refused
                } else {
                    Pending::Full
                }
            },
            other => Pending::Command(other),
        }
    }

    /// Writes the answer to the command that [`BatchRun::next_step`] handed
    /// out; `false` (and nothing written) when it does not fit in the
    /// response buffer. Refused commands are answered by `next_step`.
    pub fn answer(&mut self, response: BatchResponse) -> (ok: bool)
        requires
            old(self).wf(),
            old(self).answered() < old(self).frames().len(),
            !(old(self).next_view() is Invalid),
        ensures
            final(self).wf(),
            final(self).frames() == old(self).frames(),
            final(self).declared_count() == old(self).declared_count(),
            final(self).capacity() == old(self).capacity(),
            ok == old(self).fits(response_frame(response).1.len()),
            ok ==> final(self).records() == old(self).records().push(
                (response_type_code(response_frame(response).0), response_frame(response).1),
            ),
            !ok ==> final(self).records() == old(self).records(),
    {
        let (resp_type, payload) = response.encode();
        self.writer.push(resp_type, payload.as_slice())
    }

    /// The response: the number of responses written, then their frames.
    pub fn finish(self) -> (out: Vec<u8>)
        requires
            self.wf(),
            self.capacity() >= 4,
        ensures
            out@ == u32_bytes(self.records().len() as u32) + encode_records(self.records()),
            out@.len() <= self.capacity() || self.records().len() == 0,
    {
        let n = self.writer.count() as u32;
        self.writer.finish(n)
    }
}

/// A step of answering a batch.
pub enum Pending {
    /// Every command has been answered.
    Done,
    /// The next command was refused and answered with an Error response.
    Refused,
    /// The next answer does not fit in the response buffer.
    Full,
    /// The next command, to be carried out and answered.
    Command(BatchCommand),
}

} // verus!
