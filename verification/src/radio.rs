use crate::song::Song;
use crate::song_queue::{QueueEffect, QueueView};
use vstd::prelude::*;

verus! {

/// What the transmitter is started with: how long the song may play (in
/// seconds, the limit after which the process is stopped), the
/// transmitter's script, the frequency in kHz and the song's media.
#[derive(Debug, PartialEq, Eq)]
pub struct PlaybackCommand {
    pub duration: i32,
    pub script_path: String,
    pub frequency: u32,
    pub audio_path: String,
}

/// The request to play a song.
#[derive(Debug, PartialEq, Eq)]
pub struct PlaySong {
    pub song: Song,
}

/// The request to cancel the playback in flight.
#[derive(Clone, Copy, Debug, PartialEq, Eq, Structural)]
pub struct SkipSong;

/// The request to transmit on another frequency, in kHz.
#[derive(Clone, Copy, Debug, PartialEq, Eq, Structural)]
pub struct SetFrequency {
    pub frequency: u32,
}

/// What the player asks of its surroundings, in the order given.
#[derive(Debug, PartialEq, Eq)]
pub enum RadioEffect {
    /// Start the transmitter, and report its end under `handle`.
    Spawn { handle: u64, command: PlaybackCommand },
    /// Stop the transmitter that was started under `handle`.
    Cancel { handle: u64 },
    /// Tell the queue that the playback has ended.
    Finished,
}

/// The frequency that a new player transmits on: 104.1 MHz.
pub const DEFAULT_FREQUENCY: u32 = 104_100;

/// The handle that follows `handle`.
pub open spec fn handle_after(handle: u64) -> u64 {
    if handle == u64::MAX {
        0
    } else {
        (handle + 1) as u64
    }
}

/// The player as contracts see it.
pub struct RadioView {
    pub script_path: Seq<char>,
    /// The handle of the playback in flight.
    pub command_handle: Option<u64>,
    /// The frequency of the next playback, in kHz.
    pub frequency: u32,
    /// The handle that the next playback gets.
    pub next_handle: u64,
}

/// The command that plays `song` with the script at `script_path` on
/// `frequency`.
pub open spec fn is_command_for(command: PlaybackCommand, song: Song, script_path: Seq<char>, frequency: u32) -> bool {
    &&& command.duration == song.duration
    &&& command.script_path@ == script_path
    &&& command.frequency == frequency
    &&& command.audio_path@ == song.path@
}

impl RadioView {
    /// The player after a request to play: the playback in flight, if
    /// any, is the new one.
    pub open spec fn played(self) -> RadioView {
        RadioView {
            command_handle: Some(self.next_handle),
            next_handle: handle_after(self.next_handle),
            ..self
        }
    }

    /// Whether `fx` is what a request to play `song` asks for: a playback
    /// still in flight is stopped, without a word to the queue, and the
    /// new one is started under the next handle.
    pub open spec fn play_effects(self, song: Song, fx: Seq<RadioEffect>) -> bool {
        let spawn = fx.last();
        &&& fx.len() == if self.command_handle is Some { 2int } else { 1int }
        &&& self.command_handle is Some ==> fx[0] == (RadioEffect::Cancel { handle: self.command_handle->0 })
        &&& spawn is Spawn
        &&& spawn->Spawn_handle == self.next_handle
        &&& is_command_for(spawn->command, song, self.script_path, self.frequency)
    }

    /// A skip: the playback in flight is stopped and the queue is told
    /// that it has ended; with none in flight nothing happens.
    pub open spec fn skip(self) -> (RadioView, Seq<RadioEffect>) {
        match self.command_handle {
            Some(handle) => (
                RadioView { command_handle: None, ..self },
                seq![RadioEffect::Cancel { handle }, RadioEffect::Finished],
            ),
            None => (self, Seq::empty()),
        }
    }

    /// The transmitter started under `handle` has ended by itself. If it
    /// is the playback in flight the queue is told; the end of one that
    /// was stopped or replaced is passed over.
    pub open spec fn exited(self, handle: u64) -> (RadioView, Seq<RadioEffect>) {
        if self.command_handle == Some(handle) {
            (RadioView { command_handle: None, ..self }, seq![RadioEffect::Finished])
        } else {
            (self, Seq::empty())
        }
    }

    /// The frequency changes for the playbacks to come.
    pub open spec fn tuned(self, frequency: u32) -> RadioView {
        RadioView { frequency, ..self }
    }
}

/// The player: it holds at most one playback in flight.
pub struct Radio {
    script_path: String,
    command_handle: Option<u64>,
    frequency: u32,
    next_handle: u64,
}

impl View for Radio {
    type V = RadioView;

    closed spec fn view(&self) -> RadioView {
        RadioView {
            script_path: self.script_path@,
            command_handle: self.command_handle,
            frequency: self.frequency,
            next_handle: self.next_handle,
        }
    }
}

impl Radio {
    /// A player for the transmitter's script at `script_path`, with
    /// nothing in flight.
    pub fn new(script_path: String) -> (radio: Radio)
        ensures
            radio@ == (RadioView {
                script_path: script_path@,
                command_handle: None,
                frequency: DEFAULT_FREQUENCY,
                next_handle: 0,
            }),
    {
        Radio { script_path, command_handle: None, frequency: DEFAULT_FREQUENCY, next_handle: 0 }
    }

    /// Whether a playback is in flight.
    pub fn playing(&self) -> (r: bool)
        ensures
            r == (self@.command_handle is Some),
    {
        self.command_handle.is_some()
    }

    /// The handle of the playback in flight.
    pub fn command_handle(&self) -> (r: Option<u64>)
        ensures
            r == self@.command_handle,
    {
        self.command_handle
    }

    /// The frequency of the next playback, in kHz.
    pub fn frequency(&self) -> (r: u32)
        ensures
            r == self@.frequency,
    {
        self.frequency
    }

    /// Starts the playback of the song in `msg`, in place of the one in
    /// flight if there is one.
    pub fn play_song(&mut self, msg: &PlaySong) -> (effects: Vec<RadioEffect>)
        ensures
            final(self)@ == old(self)@.played(),
            old(self)@.play_effects(msg.song, effects@),
    {
        let mut effects: Vec<RadioEffect> = Vec::new();
        if let Some(handle) = self.command_handle {
            effects.push(RadioEffect::Cancel { handle });
        }
        let handle = self.next_handle;
        let command = PlaybackCommand {
            duration: msg.song.duration,
            script_path: self.script_path.clone(),
            frequency: self.frequency,
            audio_path: msg.song.path.clone(),
        };
        effects.push(RadioEffect::Spawn { handle, command });
        self.command_handle = Some(handle);
        self.next_handle = if handle == u64::MAX {
            0
        } else {
            handle + 1
        };
        effects
    }

    /// Cancels the playback in flight and reports its end to the queue.
    /// With nothing in flight nothing happens.
    pub fn skip_song(&mut self, msg: SkipSong) -> (effects: Vec<RadioEffect>)
        ensures
            (final(self)@, effects@) == old(self)@.skip(),
    {
        let mut effects: Vec<RadioEffect> = Vec::new();
        if let Some(handle) = self.command_handle {
            effects.push(RadioEffect::Cancel { handle });
            effects.push(RadioEffect::Finished);
            self.command_handle = None;
        }
        proof {
            assert(effects@ =~= old(self)@.skip().1);
        }
        effects
    }

    /// Takes the end of the transmitter that was started under `handle`.
    pub fn playback_exited(&mut self, handle: u64) -> (effects: Vec<RadioEffect>)
        ensures
            (final(self)@, effects@) == old(self)@.exited(handle),
    {
        let mut effects: Vec<RadioEffect> = Vec::new();
        let current = match self.command_handle {
            Some(h) => h == handle,
            None => false,
        };
        if current {
            effects.push(RadioEffect::Finished);
            self.command_handle = None;
        }
        proof {
            assert(effects@ =~= old(self)@.exited(handle).1);
        }
        effects
    }

    /// Sets the frequency of the playbacks to come. The one in flight
    /// goes on as it was started.
    pub fn set_frequency(&mut self, msg: SetFrequency)
        ensures
            final(self)@ == old(self)@.tuned(msg.frequency),
    {
        self.frequency = msg.frequency;
    }
}

/// Every playback ends for the queue exactly once. When it is skipped,
/// the queue is told at once and the later end of the stopped transmitter
/// is passed over; when it ends by itself, the queue is told then and a
/// later skip finds nothing to stop.
pub proof fn lemma_one_end_per_playback(radio: RadioView, handle: u64)
    requires
        radio.command_handle == Some(handle),
    ensures
        radio.skip().1 == seq![RadioEffect::Cancel { handle }, RadioEffect::Finished],
        radio.skip().0.exited(handle).1 == Seq::<RadioEffect>::empty(),
        radio.skip().0.skip().1 == Seq::<RadioEffect>::empty(),
        radio.exited(handle).1 == seq![RadioEffect::Finished],
        radio.exited(handle).0.skip().1 == Seq::<RadioEffect>::empty(),
        radio.exited(handle).0.exited(handle).1 == Seq::<RadioEffect>::empty(),
{
}

/// A skip while a song is active and its playback in flight goes from the
/// queue to the player as one cancellation, comes back as one report of
/// an end, and that report advances the queue once, as the natural end of
/// the song would.
pub proof fn lemma_skip_round_trip(queue: QueueView, radio: RadioView)
    requires
        queue.active is Some,
        radio.command_handle is Some,
    ensures
        queue.skip() == (queue, seq![QueueEffect::Skip]),
        radio.skip().1 == seq![
            RadioEffect::Cancel { handle: radio.command_handle->0 },
            RadioEffect::Finished,
        ],
        radio.skip().0.command_handle is None,
        queue.finished() == (QueueView { active: None, ..queue }).advance(),
{
}

} // verus!
