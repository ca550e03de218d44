use crate::song::{same_track, AcquisitionError, NewSong, Song, SongRequest};
use vstd::prelude::*;

verus! {

/// A song that waits to be played: the song, the moment its request was
/// taken and the identifier under which the queue knows it.
#[derive(Debug, PartialEq, Eq)]
pub struct ScheduledSong {
    pub song: Song,
    pub requested_at: i64,
    pub uuid: u128,
}

impl Clone for ScheduledSong {
    fn clone(&self) -> (r: Self)
        ensures
            r == *self,
    {
        ScheduledSong { song: self.song.clone(), requested_at: self.requested_at, uuid: self.uuid }
    }
}

/// What the queue tells the connected clients.
#[derive(Debug, PartialEq, Eq)]
pub enum Notice {
    NextSong { next_song: Song },
    SongDownloadFinished { scheduled_song: ScheduledSong },
    NoSongsAvailable,
    DeleteSongFromQueue { uuid: u128 },
}

/// What the queue asks of its surroundings. The caller carries the effects
/// out in the order given and reports what came of the store and the
/// downloader through `random_song_result`, `song_lookup_result`,
/// `song_downloaded` and `song_saved`.
#[derive(Debug, PartialEq, Eq)]
pub enum QueueEffect {
    /// Start playing `song`.
    Play { song: Song },
    /// Cancel the playback in flight.
    Skip,
    /// Send `notice` to every connected client.
    Publish { notice: Notice },
    /// Ask the store for a random song that is not flagged as sensitive.
    PickRandomSong,
    /// Ask the store whether it holds the requested track.
    CheckSongExistence { requested_song: SongRequest },
    /// Hand the request to the downloader.
    Download { requested_song: SongRequest },
    /// Persist the downloaded song.
    SaveSong { new_song: NewSong, requested_song: SongRequest },
    /// Tell the requester that the request failed.
    AcquisitionFailed { requested_song: SongRequest, error: AcquisitionError },
}

/// The jobs that the queue takes.
#[derive(Debug, PartialEq, Eq)]
pub enum QueueJob {
    PlaySong { song: Song },
    ScheduleSong { scheduled_song: ScheduledSong },
    DownloadSong { requested_song: SongRequest },
    SkipSong,
    DeleteSongFromQueue { uuid: u128 },
}

/// A snapshot of the queue for a client that has just connected.
#[derive(Debug, PartialEq, Eq)]
pub struct QueueState {
    pub active_song: Option<Song>,
    pub songs_queue: Vec<ScheduledSong>,
}

/// The number of leading items of `s` that satisfy `p`.
pub open spec fn leading<A>(s: Seq<A>, p: spec_fn(A) -> bool) -> int
    decreases s.len(),
{
    if s.len() == 0 || !p(s[0]) {
        0
    } else {
        1 + leading(s.drop_first(), p)
    }
}

/// `leading(s, p)` is the one index up to which `p` holds and at which it
/// does not.
pub proof fn lemma_leading<A>(s: Seq<A>, p: spec_fn(A) -> bool, k: int)
    requires
        0 <= k <= s.len(),
        forall|j: int| 0 <= j < k ==> p(#[trigger] s[j]),
        k < s.len() ==> !p(s[k]),
    ensures
        leading(s, p) == k,
    decreases s.len(),
{
    if k > 0 {
        let t = s.drop_first();
        assert forall|j: int| 0 <= j < k - 1 implies p(#[trigger] t[j]) by {
            assert(t[j] == s[j + 1]);
        }
        lemma_leading(t, p, k - 1);
    }
}

/// The converse: what holds at and before `leading(s, p)`.
pub proof fn lemma_leading_bounds<A>(s: Seq<A>, p: spec_fn(A) -> bool)
    ensures
        0 <= leading(s, p) <= s.len(),
        forall|j: int| 0 <= j < leading(s, p) ==> p(#[trigger] s[j]),
        leading(s, p) < s.len() ==> !p(s[leading(s, p)]),
    decreases s.len(),
{
    if s.len() == 0 || !p(s[0]) {
    } else {
        let t = s.drop_first();
        lemma_leading_bounds(t, p);
        assert forall|j: int| 0 <= j < leading(s, p) implies p(#[trigger] s[j]) by {
            if j > 0 {
                assert(s[j] == t[j - 1]);
            }
        }
    }
}

/// The pending songs are in the order of their requests.
pub open spec fn sorted_by_request(s: Seq<ScheduledSong>) -> bool {
    forall|i: int, j: int| 0 <= i < j < s.len() ==> s[i].requested_at <= s[j].requested_at
}

/// Where a song requested at `requested_at` goes: behind every song
/// requested no later, so that among equal moments the first to arrive
/// stays first.
pub open spec fn insertion_point(s: Seq<ScheduledSong>, requested_at: i64) -> int {
    leading(s, |e: ScheduledSong| e.requested_at <= requested_at)
}

/// The pending songs with `entry` among them.
pub open spec fn enqueued(s: Seq<ScheduledSong>, entry: ScheduledSong) -> Seq<ScheduledSong> {
    s.insert(insertion_point(s, entry.requested_at), entry)
}

/// The pending songs without those that the queue knows as `uuid`.
pub open spec fn without_uuid(s: Seq<ScheduledSong>, uuid: u128) -> Seq<ScheduledSong> {
    s.filter(|e: ScheduledSong| e.uuid != uuid)
}

/// The place of the first request in `s` for the track of `r`; the length
/// of `s` if there is none.
pub open spec fn first_track(s: Seq<SongRequest>, r: SongRequest) -> int {
    leading(s, |x: SongRequest| !same_track(x, r))
}

/// No two requests in `s` are for the same track.
pub open spec fn distinct_tracks(s: Seq<SongRequest>) -> bool {
    forall|i: int, j: int| 0 <= i < j < s.len() ==> !same_track(s[i], s[j])
}

/// Some request in `s` is for the track of `r`.
pub open spec fn has_track(s: Seq<SongRequest>, r: SongRequest) -> bool {
    exists|j: int| 0 <= j < s.len() && same_track(#[trigger] s[j], r)
}

/// Every request in `waiting` waits for an acquisition that is under way.
pub open spec fn waits_for_acquiring(acquiring: Seq<SongRequest>, waiting: Seq<SongRequest>) -> bool {
    forall|i: int| 0 <= i < waiting.len() ==> has_track(acquiring, #[trigger] waiting[i])
}

/// The queue as contracts see it.
pub struct QueueView {
    /// The song that is playing.
    pub active: Option<Song>,
    /// The songs that wait, next one first.
    pub pending: Seq<ScheduledSong>,
    /// The requests whose songs are being acquired.
    pub acquiring: Seq<SongRequest>,
    /// The requests that wait for an acquisition of the same track to end.
    pub waiting: Seq<SongRequest>,
}

impl QueueView {
    /// The queue at start: nothing plays, nothing waits.
    pub open spec fn empty() -> QueueView {
        QueueView { active: None, pending: Seq::empty(), acquiring: Seq::empty(), waiting: Seq::empty() }
    }

    /// What holds of every queue: the pending songs are in the order of
    /// their requests, no track is being acquired twice, and a request
    /// only waits while its track is being acquired.
    pub open spec fn wf(self) -> bool {
        &&& sorted_by_request(self.pending)
        &&& distinct_tracks(self.acquiring)
        &&& waits_for_acquiring(self.acquiring, self.waiting)
    }

    /// `song` becomes the active song: it is started and announced.
    pub open spec fn play(self, song: Song) -> (QueueView, Seq<QueueEffect>) {
        (
            QueueView { active: Some(song), ..self },
            seq![
                QueueEffect::Play { song },
                QueueEffect::Publish { notice: Notice::NextSong { next_song: song } },
            ],
        )
    }

    /// The head of the pending songs becomes active; with none pending the
    /// store is asked for a random song.
    pub open spec fn advance(self) -> (QueueView, Seq<QueueEffect>) {
        if self.pending.len() > 0 {
            (QueueView { pending: self.pending.drop_first(), ..self }).play(self.pending[0].song)
        } else {
            (self, seq![QueueEffect::PickRandomSong])
        }
    }

    /// `entry` joins the pending songs; an idle queue advances at once.
    pub open spec fn schedule(self, entry: ScheduledSong) -> (QueueView, Seq<QueueEffect>) {
        let q = QueueView { pending: enqueued(self.pending, entry), ..self };
        if q.active is None {
            q.advance()
        } else {
            (q, Seq::empty())
        }
    }

    /// The playback in flight is cancelled; without an active song nothing
    /// happens.
    pub open spec fn skip(self) -> (QueueView, Seq<QueueEffect>) {
        if self.active is Some {
            (self, seq![QueueEffect::Skip])
        } else {
            (self, Seq::empty())
        }
    }

    /// The pending song known as `uuid` leaves, and the clients are told.
    pub open spec fn delete(self, uuid: u128) -> (QueueView, Seq<QueueEffect>) {
        (
            QueueView { pending: without_uuid(self.pending, uuid), ..self },
            seq![QueueEffect::Publish { notice: Notice::DeleteSongFromQueue { uuid } }],
        )
    }

    /// The playback has ended, by itself or cancelled: the queue advances.
    pub open spec fn finished(self) -> (QueueView, Seq<QueueEffect>) {
        (QueueView { active: None, ..self }).advance()
    }

    /// The store has answered the request for a random song.
    pub open spec fn random_song(self, picked: Option<Song>) -> (QueueView, Seq<QueueEffect>) {
        match picked {
            Some(song) => self.play(song),
            None => (self, seq![QueueEffect::Publish { notice: Notice::NoSongsAvailable }]),
        }
    }

    /// A request arrives. While the same track is being acquired it waits;
    /// otherwise its acquisition starts with a look into the store.
    pub open spec fn request(self, r: SongRequest) -> (QueueView, Seq<QueueEffect>) {
        if first_track(self.acquiring, r) < self.acquiring.len() {
            (QueueView { waiting: self.waiting.push(r), ..self }, Seq::empty())
        } else {
            (
                QueueView { acquiring: self.acquiring.push(r), ..self },
                seq![QueueEffect::CheckSongExistence { requested_song: r }],
            )
        }
    }

    /// The acquisition of the track of `r` has ended. The first request
    /// that waited for it starts its own, with a look into the store.
    pub open spec fn release(self, r: SongRequest) -> (QueueView, Seq<QueueEffect>) {
        let k = first_track(self.acquiring, r);
        let acquiring = if k < self.acquiring.len() {
            self.acquiring.remove(k)
        } else {
            self.acquiring
        };
        let w = first_track(self.waiting, r);
        if w < self.waiting.len() {
            (
                QueueView {
                    acquiring: acquiring.push(self.waiting[w]),
                    waiting: self.waiting.remove(w),
                    ..self
                },
                seq![QueueEffect::CheckSongExistence { requested_song: self.waiting[w] }],
            )
        } else {
            (QueueView { acquiring, ..self }, Seq::empty())
        }
    }

    /// The request `r` has yielded `song`. It is scheduled as `uuid`, the
    /// clients are told, and the track is released.
    pub open spec fn acquired(self, song: Song, r: SongRequest, uuid: u128) -> (QueueView, Seq<QueueEffect>) {
        let scheduled_song = ScheduledSong { song, requested_at: r.requested_at, uuid };
        let (q1, fx1) = self.schedule(scheduled_song);
        let (q2, fx2) = q1.release(r);
        (q2, fx1.push(QueueEffect::Publish { notice: Notice::SongDownloadFinished { scheduled_song } }) + fx2)
    }

    /// The request `r` has failed with `error`: the requester is told, and
    /// the track is released.
    pub open spec fn failed(self, r: SongRequest, error: AcquisitionError) -> (QueueView, Seq<QueueEffect>) {
        let (q, fx) = self.release(r);
        (q, seq![QueueEffect::AcquisitionFailed { requested_song: r, error }] + fx)
    }

    /// The store has said whether it holds the track of `r`. A track that
    /// it holds is not downloaded again; one that it lacks goes to the
    /// downloader; a store that gave no answer fails the request.
    pub open spec fn lookup(self, r: SongRequest, found: Result<Song, AcquisitionError>, uuid: u128) -> (
        QueueView,
        Seq<QueueEffect>,
    ) {
        match found {
            Ok(song) => self.acquired(song, r, uuid),
            Err(AcquisitionError::NotFound) => (self, seq![QueueEffect::Download { requested_song: r }]),
            Err(error) => self.failed(r, error),
        }
    }

    /// The downloader has ended its work on `r`.
    pub open spec fn downloaded(self, r: SongRequest, outcome: Result<NewSong, AcquisitionError>) -> (QueueView, Seq<QueueEffect>) {
        match outcome {
            Ok(new_song) => (self, seq![QueueEffect::SaveSong { new_song, requested_song: r }]),
            Err(error) => self.failed(r, error),
        }
    }

    /// The store has ended persisting the song downloaded for `r`.
    pub open spec fn saved(self, r: SongRequest, outcome: Result<Song, AcquisitionError>, uuid: u128) -> (QueueView, Seq<QueueEffect>) {
        match outcome {
            Ok(song) => self.acquired(song, r, uuid),
            Err(error) => self.failed(r, error),
        }
    }

    /// What a job does to the queue.
    pub open spec fn handle(self, job: QueueJob) -> (QueueView, Seq<QueueEffect>) {
        match job {
            QueueJob::PlaySong { song } => self.play(song),
            QueueJob::ScheduleSong { scheduled_song } => self.schedule(scheduled_song),
            QueueJob::DownloadSong { requested_song } => self.request(requested_song),
            QueueJob::SkipSong => self.skip(),
            QueueJob::DeleteSongFromQueue { uuid } => self.delete(uuid),
        }
    }
}


/// The playback queue: the song that plays, the songs that wait, and the
/// requests whose songs are still being acquired.
pub struct SongQueue {
    songs_queue: Vec<ScheduledSong>,
    active_song: Option<Song>,
    acquiring: Vec<SongRequest>,
    waiting: Vec<SongRequest>,
}

impl View for SongQueue {
    type V = QueueView;

    closed spec fn view(&self) -> QueueView {
        QueueView {
            active: self.active_song,
            pending: self.songs_queue@,
            acquiring: self.acquiring@,
            waiting: self.waiting@,
        }
    }
}

/// A fresh identifier for a scheduled song, from `uuid::Uuid::new_v4`: the
/// sixteen bytes of a random UUID, read as one number, first byte highest.
/// Nothing is claimed of the number. `uuid::Uuid::new_v4` gives up where
/// the system has no source of random numbers for it.
#[verifier::external_body]
fn new_uuid() -> (uuid: u128) {
    u128::from_be_bytes(*uuid::Uuid::new_v4().as_bytes())
}

/// The place of the first request in `v` for the track of `r`; the length
/// of `v` if there is none.
fn find_track(v: &Vec<SongRequest>, r: &SongRequest) -> (k: usize)
    ensures
        k == first_track(v@, *r),
        k <= v@.len(),
{
    let mut k: usize = 0;
    while k < v.len() && !v[k].is_same_track(r)
        invariant
            k <= v@.len(),
            forall|j: int| 0 <= j < k ==> !same_track(#[trigger] v@[j], *r),
        decreases v@.len() - k,
    {
        k += 1;
    }
    proof {
        lemma_leading(v@, |x: SongRequest| !same_track(x, *r), k as int);
    }
    k
}

impl SongQueue {
    /// A queue in which nothing plays and nothing waits.
    pub fn new() -> (q: SongQueue)
        ensures
            q@ == QueueView::empty(),
            q@.wf(),
    {
        SongQueue { songs_queue: Vec::new(), active_song: None, acquiring: Vec::new(), waiting: Vec::new() }
    }

    /// The song that is playing.
    pub fn active_song(&self) -> (r: &Option<Song>)
        ensures
            *r == self@.active,
    {
        &self.active_song
    }

    /// The songs that wait, next one first.
    pub fn songs_queue(&self) -> (r: &Vec<ScheduledSong>)
        ensures
            r@ == self@.pending,
    {
        &self.songs_queue
    }

    /// The requests whose songs are being acquired.
    pub fn acquiring(&self) -> (r: &Vec<SongRequest>)
        ensures
            r@ == self@.acquiring,
    {
        &self.acquiring
    }

    /// The requests that wait for an acquisition of the same track to end.
    pub fn waiting(&self) -> (r: &Vec<SongRequest>)
        ensures
            r@ == self@.waiting,
    {
        &self.waiting
    }

    /// The instruction to the player to start `song`.
    pub fn play_song(&self, song: &Song) -> (effect: QueueEffect)
        ensures
            effect == (QueueEffect::Play { song: *song }),
    {
        QueueEffect::Play { song: song.clone() }
    }

    fn start(&mut self, song: Song) -> (effects: Vec<QueueEffect>)
        ensures
            (final(self)@, effects@) == old(self)@.play(song),
    {
        let mut effects: Vec<QueueEffect> = Vec::new();
        effects.push(self.play_song(&song));
        effects.push(QueueEffect::Publish { notice: Notice::NextSong { next_song: song.clone() } });
        self.active_song = Some(song);
        proof {
            assert(effects@ =~= old(self)@.play(song).1);
        }
        effects
    }

    /// Moves on to the next song: the head of the pending songs if there
    /// is one, else a random song that the store is asked for.
    pub fn next_song(&mut self) -> (effects: Vec<QueueEffect>)
        ensures
            (final(self)@, effects@) == old(self)@.advance(),
            old(self)@.wf() ==> final(self)@.wf(),
    {
        if self.songs_queue.len() > 0 {
            let entry = self.songs_queue.remove(0);
            proof {
                assert(self.songs_queue@ =~= old(self)@.pending.drop_first());
            }
            self.start(entry.song)
        } else {
            let mut effects: Vec<QueueEffect> = Vec::new();
            effects.push(QueueEffect::PickRandomSong);
            proof {
                assert(effects@ =~= seq![QueueEffect::PickRandomSong]);
            }
            effects
        }
    }

    /// Puts `entry` among the pending songs, behind every song requested
    /// no later.
    fn insert_song(&mut self, entry: ScheduledSong)
        ensures
            final(self)@ == (QueueView { pending: enqueued(old(self)@.pending, entry), ..old(self)@ }),
    {
        let mut k: usize = 0;
        while k < self.songs_queue.len() && self.songs_queue[k].requested_at <= entry.requested_at
            invariant
                *self == *old(self),
                k <= self.songs_queue@.len(),
                forall|j: int| 0 <= j < k ==> (#[trigger] self.songs_queue@[j]).requested_at <= entry.requested_at,
            decreases self.songs_queue@.len() - k,
        {
            k += 1;
        }
        proof {
            lemma_leading(self.songs_queue@, |e: ScheduledSong| e.requested_at <= entry.requested_at, k as int);
        }
        self.songs_queue.insert(k, entry);
    }

    /// Takes the pending song known as `uuid` out of the queue.
    fn remove_song(&mut self, uuid: u128)
        ensures
            final(self)@ == (QueueView { pending: without_uuid(old(self)@.pending, uuid), ..old(self)@ }),
    {
        let ghost keep = |e: ScheduledSong| e.uuid != uuid;
        let mut kept: Vec<ScheduledSong> = Vec::new();
        let mut i: usize = 0;
        while i < self.songs_queue.len()
            invariant
                *self == *old(self),
                i <= self.songs_queue@.len(),
                keep == (|e: ScheduledSong| e.uuid != uuid),
                kept@ == self.songs_queue@.take(i as int).filter(keep),
            decreases self.songs_queue@.len() - i,
        {
            proof {
                let next = self.songs_queue@.take(i + 1);
                assert(next.drop_last() =~= self.songs_queue@.take(i as int));
                assert(next.last() == self.songs_queue@[i as int]);
                reveal(Seq::filter);
            }
            if self.songs_queue[i].uuid != uuid {
                kept.push(self.songs_queue[i].clone());
            }
            i += 1;
        }
        proof {
            assert(self.songs_queue@.take(i as int) =~= self.songs_queue@);
        }
        self.songs_queue = kept;
    }

    /// Ends the acquisition of the track of `r` and lets the first request
    /// that waited for it start its own.
    fn release(&mut self, r: &SongRequest) -> (effects: Vec<QueueEffect>)
        ensures
            (final(self)@, effects@) == old(self)@.release(*r),
    {
        let mut effects: Vec<QueueEffect> = Vec::new();
        let k = find_track(&self.acquiring, r);
        if k < self.acquiring.len() {
            self.acquiring.remove(k);
        }
        let w = find_track(&self.waiting, r);
        if w < self.waiting.len() {
            let next = self.waiting.remove(w);
            effects.push(QueueEffect::CheckSongExistence { requested_song: next.clone() });
            self.acquiring.push(next);
        }
        proof {
            assert(effects@ =~= old(self)@.release(*r).1);
        }
        effects
    }

    /// Carries out `job`.
    pub fn handle_activities(&mut self, job: QueueJob) -> (effects: Vec<QueueEffect>)
        ensures
            (final(self)@, effects@) == old(self)@.handle(job),
            old(self)@.wf() ==> final(self)@.wf(),
    {
        proof {
            if self@.wf() {
                lemma_handle_keeps_wf(self@, job);
            }
        }
        match job {
            QueueJob::PlaySong { song } => self.start(song),
            QueueJob::ScheduleSong { scheduled_song } => {
                self.insert_song(scheduled_song);
                if self.active_song.is_none() {
                    self.next_song()
                } else {
                    Vec::new()
                }
            },
            QueueJob::DownloadSong { requested_song } => self.download_song(requested_song),
            QueueJob::SkipSong => {
                let mut effects: Vec<QueueEffect> = Vec::new();
                if self.active_song.is_some() {
                    effects.push(QueueEffect::Skip);
                }
                proof {
                    assert(effects@ =~= old(self)@.skip().1);
                }
                effects
            },
            QueueJob::DeleteSongFromQueue { uuid } => {
                self.remove_song(uuid);
                let mut effects: Vec<QueueEffect> = Vec::new();
                effects.push(QueueEffect::Publish { notice: Notice::DeleteSongFromQueue { uuid } });
                proof {
                    assert(effects@ =~= old(self)@.delete(uuid).1);
                }
                effects
            },
        }
    }

    /// Takes a request. While the same track is being acquired the request
    /// waits; otherwise its acquisition starts with a look into the store.
    pub fn download_song(&mut self, requested_song: SongRequest) -> (effects: Vec<QueueEffect>)
        ensures
            (final(self)@, effects@) == old(self)@.request(requested_song),
            old(self)@.wf() ==> final(self)@.wf(),
    {
        proof {
            if self@.wf() {
                lemma_request_keeps_wf(self@, requested_song);
            }
        }
        let mut effects: Vec<QueueEffect> = Vec::new();
        let k = find_track(&self.acquiring, &requested_song);
        if k < self.acquiring.len() {
            self.waiting.push(requested_song);
        } else {
            effects.push(QueueEffect::CheckSongExistence { requested_song: requested_song.clone() });
            self.acquiring.push(requested_song);
        }
        proof {
            assert(effects@ =~= old(self)@.request(requested_song).1);
        }
        effects
    }

    /// The playback has ended, by itself or because it was cancelled: the
    /// active song is cleared and the queue moves on, once.
    pub fn playback_finished(&mut self) -> (effects: Vec<QueueEffect>)
        ensures
            (final(self)@, effects@) == old(self)@.finished(),
            old(self)@.wf() ==> final(self)@.wf(),
    {
        self.active_song = None;
        self.next_song()
    }

    /// Takes the store's answer to the request for a random song. A song
    /// becomes active; without one the clients are told that nothing is
    /// there to play, and the queue stays idle.
    pub fn random_song_result(&mut self, picked: Option<Song>) -> (effects: Vec<QueueEffect>)
        ensures
            (final(self)@, effects@) == old(self)@.random_song(picked),
            old(self)@.wf() ==> final(self)@.wf(),
    {
        match picked {
            Some(song) => self.start(song),
            None => {
                let mut effects: Vec<QueueEffect> = Vec::new();
                effects.push(QueueEffect::Publish { notice: Notice::NoSongsAvailable });
                proof {
                    assert(effects@ =~= old(self)@.random_song(picked).1);
                }
                effects
            },
        }
    }

    /// Admits the song acquired for `requested_song` to the queue under
    /// the identifier `uuid`, tells the clients, and releases the track.
    pub fn schedule_song_as(&mut self, song: &Song, requested_song: &SongRequest, uuid: u128) -> (effects: Vec<
        QueueEffect,
    >)
        ensures
            (final(self)@, effects@) == old(self)@.acquired(*song, *requested_song, uuid),
            old(self)@.wf() ==> final(self)@.wf(),
    {
        proof {
            if self@.wf() {
                lemma_acquired_keeps_wf(self@, *song, *requested_song, uuid);
            }
        }
        let scheduled_song = ScheduledSong {
            song: song.clone(),
            requested_at: requested_song.requested_at,
            uuid,
        };
        let mut effects = self.handle_activities(
            QueueJob::ScheduleSong { scheduled_song: scheduled_song.clone() },
        );
        effects.push(QueueEffect::Publish { notice: Notice::SongDownloadFinished { scheduled_song } });
        let mut released = self.release(requested_song);
        effects.append(&mut released);
        proof {
            assert(effects@ =~= old(self)@.acquired(*song, *requested_song, uuid).1);
        }
        effects
    }

    /// Admits the song acquired for `requested_song` to the queue under a
    /// fresh identifier.
    pub fn schedule_song(&mut self, song: &Song, requested_song: &SongRequest) -> (effects: Vec<QueueEffect>)
        ensures
            exists|uuid: u128|
                (final(self)@, effects@) == #[trigger] old(self)@.acquired(*song, *requested_song, uuid),
            old(self)@.wf() ==> final(self)@.wf(),
    {
        let uuid = new_uuid();
        self.schedule_song_as(song, requested_song, uuid)
    }

    /// Ends the acquisition of `requested_song` without a song: the
    /// requester is told why, and the track is released.
    fn give_up(&mut self, requested_song: SongRequest, error: AcquisitionError) -> (effects: Vec<QueueEffect>)
        ensures
            (final(self)@, effects@) == old(self)@.failed(requested_song, error),
            old(self)@.wf() ==> final(self)@.wf(),
    {
        proof {
            if self@.wf() {
                lemma_release_keeps_wf(self@, requested_song);
            }
        }
        let mut released = self.release(&requested_song);
        let mut effects: Vec<QueueEffect> = Vec::new();
        effects.push(QueueEffect::AcquisitionFailed { requested_song, error });
        effects.append(&mut released);
        proof {
            assert(effects@ =~= old(self)@.failed(requested_song, error).1);
        }
        effects
    }

    /// The instruction to obtain a track that the store does not hold.
    pub fn get_song(&self, requested_song: SongRequest) -> (effects: Vec<QueueEffect>)
        ensures
            effects@ == seq![QueueEffect::Download { requested_song }],
    {
        let mut effects: Vec<QueueEffect> = Vec::new();
        effects.push(QueueEffect::Download { requested_song });
        proof {
            assert(effects@ =~= seq![QueueEffect::Download { requested_song }]);
        }
        effects
    }

    /// Takes the store's answer on whether it holds the requested track.
    /// A track that it holds is scheduled at once and not downloaded
    /// again; one that it lacks goes to the downloader; any other failure
    /// of the store ends the acquisition.
    pub fn song_lookup_result(&mut self, requested_song: SongRequest, found: Result<Song, AcquisitionError>) -> (effects: Vec<
        QueueEffect,
    >)
        ensures
            exists|uuid: u128|
                (final(self)@, effects@) == #[trigger] old(self)@.lookup(requested_song, found, uuid),
            old(self)@.wf() ==> final(self)@.wf(),
    {
        match found {
            Ok(song) => {
                let uuid = new_uuid();
                let effects = self.schedule_song_as(&song, &requested_song, uuid);
                proof {
                    assert((self@, effects@) == old(self)@.lookup(requested_song, found, uuid));
                }
                effects
            },
            Err(AcquisitionError::NotFound) => {
                let effects = self.get_song(requested_song);
                proof {
                    assert((self@, effects@) == old(self)@.lookup(requested_song, found, 0));
                }
                effects
            },
            Err(error) => {
                let effects = self.give_up(requested_song, error);
                proof {
                    assert((self@, effects@) == old(self)@.lookup(requested_song, found, 0));
                }
                effects
            },
        }
    }

    /// Takes the downloader's result: a downloaded song goes to the store,
    /// a failure ends the acquisition.
    pub fn song_downloaded(&mut self, requested_song: SongRequest, outcome: Result<NewSong, AcquisitionError>) -> (effects: Vec<QueueEffect>)
        ensures
            (final(self)@, effects@) == old(self)@.downloaded(requested_song, outcome),
            old(self)@.wf() ==> final(self)@.wf(),
    {
        match outcome {
            Ok(new_song) => {
                let mut effects: Vec<QueueEffect> = Vec::new();
                effects.push(QueueEffect::SaveSong { new_song, requested_song });
                proof {
                    assert(effects@ =~= old(self)@.downloaded(requested_song, outcome).1);
                }
                effects
            },
            Err(error) => self.give_up(requested_song, error),
        }
    }

    /// Takes the store's result of persisting a downloaded song: the
    /// persisted song is scheduled, a failure ends the acquisition.
    pub fn song_saved(&mut self, requested_song: SongRequest, outcome: Result<Song, AcquisitionError>) -> (effects: Vec<QueueEffect>)
        ensures
            exists|uuid: u128|
                (final(self)@, effects@) == #[trigger] old(self)@.saved(requested_song, outcome, uuid),
            old(self)@.wf() ==> final(self)@.wf(),
    {
        match outcome {
            Ok(song) => {
                let uuid = new_uuid();
                let effects = self.schedule_song_as(&song, &requested_song, uuid);
                proof {
                    assert((self@, effects@) == old(self)@.saved(requested_song, outcome, uuid));
                }
                effects
            },
            Err(error) => {
                let effects = self.give_up(requested_song, error);
                proof {
                    assert((self@, effects@) == old(self)@.saved(requested_song, outcome, 0));
                }
                effects
            },
        }
    }

    /// The active song and the pending songs, for a client that has just
    /// connected.
    pub fn queue_state(&self) -> (state: QueueState)
        ensures
            state.active_song == self@.active,
            state.songs_queue@ == self@.pending,
    {
        let active_song = match &self.active_song {
            Some(song) => Some(song.clone()),
            None => None,
        };
        let mut songs_queue: Vec<ScheduledSong> = Vec::new();
        let mut i: usize = 0;
        while i < self.songs_queue.len()
            invariant
                i <= self.songs_queue@.len(),
                songs_queue@ == self.songs_queue@.take(i as int),
            decreases self.songs_queue@.len() - i,
        {
            songs_queue.push(self.songs_queue[i].clone());
            proof {
                assert(songs_queue@ =~= self.songs_queue@.take(i + 1));
            }
            i += 1;
        }
        proof {
            assert(self.songs_queue@.take(i as int) =~= self.songs_queue@);
        }
        QueueState { active_song, songs_queue }
    }
}

/// No job breaks the order of the pending songs, nor lets a track be
/// acquired twice at a time.
pub proof fn lemma_handle_keeps_wf(q: QueueView, job: QueueJob)
    requires
        q.wf(),
    ensures
        q.handle(job).0.wf(),
{
    match job {
        QueueJob::PlaySong { song } => {},
        QueueJob::ScheduleSong { scheduled_song } => {
            lemma_schedule_keeps_wf(q, scheduled_song);
        },
        QueueJob::DownloadSong { requested_song } => {
            lemma_request_keeps_wf(q, requested_song);
        },
        QueueJob::SkipSong => {},
        QueueJob::DeleteSongFromQueue { uuid } => {
            lemma_without_uuid_sorted(q.pending, uuid);
        },
    }
}

/// A song that joins the pending songs finds its place by the moment of
/// its request: the order holds afterwards.
pub proof fn lemma_enqueued_sorted(s: Seq<ScheduledSong>, entry: ScheduledSong)
    requires
        sorted_by_request(s),
    ensures
        sorted_by_request(enqueued(s, entry)),
{
    let p = |e: ScheduledSong| e.requested_at <= entry.requested_at;
    lemma_leading_bounds(s, p);
    let k = insertion_point(s, entry.requested_at);
    let t = enqueued(s, entry);
    assert forall|i: int, j: int| 0 <= i < j < t.len() implies t[i].requested_at <= t[j].requested_at by {
        if i < k {
            assert(t[i] == s[i]);
            assert(p(s[i]));
        }
        if j > k {
            assert(t[j] == s[j - 1]);
            if k < s.len() {
                assert(!p(s[k]));
            }
        }
    }
}

/// Removing songs does not disturb the order of those that stay.
pub proof fn lemma_without_uuid_sorted(s: Seq<ScheduledSong>, uuid: u128)
    requires
        sorted_by_request(s),
    ensures
        sorted_by_request(without_uuid(s, uuid)),
        forall|i: int| 0 <= i < without_uuid(s, uuid).len() ==> s.contains(#[trigger] without_uuid(s, uuid)[i]),
    decreases s.len(),
{
    reveal(Seq::filter);
    if s.len() > 0 {
        let r = s.drop_last();
        lemma_without_uuid_sorted(r, uuid);
        let f = without_uuid(r, uuid);
        let t = without_uuid(s, uuid);
        assert forall|i: int| 0 <= i < t.len() implies s.contains(#[trigger] t[i]) by {
            if i < f.len() {
                assert(r.contains(f[i]));
                let k = choose|k: int| 0 <= k < r.len() && r[k] == f[i];
                assert(s[k] == t[i]);
            } else {
                assert(t[i] == s[s.len() - 1]);
            }
        }
        assert forall|i: int, j: int| 0 <= i < j < t.len() implies t[i].requested_at <= t[j].requested_at by {
            if j >= f.len() {
                assert(r.contains(f[i]));
                let k = choose|k: int| 0 <= k < r.len() && r[k] == f[i];
                assert(s[k] == t[i]);
                assert(t[j] == s[s.len() - 1]);
            }
        }
    }
}

/// Moving on to the next song keeps the queue well-formed.
pub proof fn lemma_advance_keeps_wf(q: QueueView)
    requires
        q.wf(),
    ensures
        q.advance().0.wf(),
{
    if q.pending.len() > 0 {
        let t = q.pending.drop_first();
        assert forall|i: int, j: int| 0 <= i < j < t.len() implies t[i].requested_at <= t[j].requested_at by {
            assert(t[i] == q.pending[i + 1]);
            assert(t[j] == q.pending[j + 1]);
        }
    }
}

/// Scheduling a song keeps the queue well-formed.
pub proof fn lemma_schedule_keeps_wf(q: QueueView, entry: ScheduledSong)
    requires
        q.wf(),
    ensures
        q.schedule(entry).0.wf(),
{
    lemma_enqueued_sorted(q.pending, entry);
    lemma_advance_keeps_wf(QueueView { pending: enqueued(q.pending, entry), ..q });
}

/// Taking a request keeps the queue well-formed: a track that is being
/// acquired is not acquired a second time.
pub proof fn lemma_request_keeps_wf(q: QueueView, r: SongRequest)
    requires
        q.wf(),
    ensures
        q.request(r).0.wf(),
{
    lemma_first_track(q.acquiring, r);
    let t = q.request(r).0;
    assert forall|i: int| 0 <= i < t.waiting.len() implies has_track(t.acquiring, #[trigger] t.waiting[i]) by {
        if i < q.waiting.len() {
            assert(t.waiting[i] == q.waiting[i]);
            let j = choose|j: int| 0 <= j < q.acquiring.len() && same_track(#[trigger] q.acquiring[j], q.waiting[i]);
            assert(same_track(t.acquiring[j], t.waiting[i]));
        } else {
            let j = first_track(q.acquiring, r);
            assert(same_track(t.acquiring[j], t.waiting[i]));
        }
    }
}


/// The end of an acquisition keeps the queue well-formed: at most one
/// request that waited takes the place of the one that ended, and the
/// others that wait for the same track now wait for that one.
pub proof fn lemma_release_keeps_wf(q: QueueView, r: SongRequest)
    requires
        q.wf(),
    ensures
        q.release(r).0.wf(),
{
    lemma_first_track(q.acquiring, r);
    lemma_first_track(q.waiting, r);
    let k = first_track(q.acquiring, r);
    let w = first_track(q.waiting, r);
    let t = q.release(r).0;
    let a = if k < q.acquiring.len() {
        q.acquiring.remove(k)
    } else {
        q.acquiring
    };
    assert forall|i: int| 0 <= i < a.len() implies !same_track(#[trigger] a[i], r) && q.acquiring.contains(a[i]) by {
        if k < q.acquiring.len() {
            let ii = if i < k {
                i
            } else {
                i + 1
            };
            assert(a[i] == q.acquiring[ii]);
            assert(!same_track(q.acquiring[ii], q.acquiring[k]) || !same_track(q.acquiring[k], q.acquiring[ii]));
        } else {
            assert(a[i] == q.acquiring[i]);
        }
    }
    assert(distinct_tracks(a)) by {
        assert forall|i: int, j: int| 0 <= i < j < a.len() implies !same_track(a[i], a[j]) by {
            if k < q.acquiring.len() {
                let ii = if i < k {
                    i
                } else {
                    i + 1
                };
                let jj = if j < k {
                    j
                } else {
                    j + 1
                };
                assert(a[i] == q.acquiring[ii] && a[j] == q.acquiring[jj]);
            }
        }
    }
    assert forall|i: int, j: int| 0 <= i < j < t.acquiring.len() implies !same_track(
        t.acquiring[i],
        t.acquiring[j],
    ) by {
        if j < a.len() {
            assert(t.acquiring[i] == a[i] && t.acquiring[j] == a[j]);
        } else {
            assert(t.acquiring[i] == a[i]);
            assert(t.acquiring[j] == q.waiting[w]);
        }
    }
    assert forall|i: int| 0 <= i < t.waiting.len() implies has_track(t.acquiring, #[trigger] t.waiting[i]) by {
        let x = t.waiting[i];
        if w < q.waiting.len() {
            let ii = if i < w {
                i
            } else {
                i + 1
            };
            assert(x == q.waiting[ii]);
        } else {
            assert(x == q.waiting[i]);
        }
        if same_track(x, r) {
            assert(w < q.waiting.len());
            assert(t.acquiring[a.len() as int] == q.waiting[w]);
            assert(same_track(t.acquiring[a.len() as int], x));
        } else {
            assert(has_track(q.acquiring, x));
            let j = choose|j: int| 0 <= j < q.acquiring.len() && same_track(#[trigger] q.acquiring[j], x);
            assert(j != k);
            let jj = if k < q.acquiring.len() && j > k {
                j - 1
            } else {
                j
            };
            assert(a[jj] == q.acquiring[j]);
            assert(t.acquiring[jj] == a[jj]);
            assert(same_track(t.acquiring[jj], x));
        }
    }
}

/// Admitting an acquired song keeps the queue well-formed.
pub proof fn lemma_acquired_keeps_wf(q: QueueView, song: Song, r: SongRequest, uuid: u128)
    requires
        q.wf(),
    ensures
        q.acquired(song, r, uuid).0.wf(),
{
    let scheduled_song = ScheduledSong { song, requested_at: r.requested_at, uuid };
    lemma_schedule_keeps_wf(q, scheduled_song);
    lemma_release_keeps_wf(q.schedule(scheduled_song).0, r);
}


/// `first_track(s, r)` finds a request for the track of `r` exactly when
/// there is one, and then the first.
pub proof fn lemma_first_track(s: Seq<SongRequest>, r: SongRequest)
    ensures
        0 <= first_track(s, r) <= s.len(),
        first_track(s, r) < s.len() <==> has_track(s, r),
        first_track(s, r) < s.len() ==> same_track(s[first_track(s, r)], r),
        forall|j: int| 0 <= j < first_track(s, r) ==> !same_track(#[trigger] s[j], r),
{
    let p = |x: SongRequest| !same_track(x, r);
    lemma_leading_bounds(s, p);
    assert forall|j: int| 0 <= j < first_track(s, r) implies !same_track(#[trigger] s[j], r) by {
        assert(p(s[j]));
    }
    if first_track(s, r) < s.len() {
        assert(!p(s[first_track(s, r)]));
    }
}

/// The pending songs after each of `entries` has joined them in turn.
pub open spec fn enqueued_all(s: Seq<ScheduledSong>, entries: Seq<ScheduledSong>) -> Seq<ScheduledSong>
    decreases entries.len(),
{
    if entries.len() == 0 {
        s
    } else {
        enqueued(enqueued_all(s, entries.drop_last()), entries.last())
    }
}

/// Whatever songs join the queue, and in whatever order they arrive, the
/// pending songs stay in the order of their requests.
pub proof fn lemma_enqueued_all_sorted(s: Seq<ScheduledSong>, entries: Seq<ScheduledSong>)
    requires
        sorted_by_request(s),
    ensures
        sorted_by_request(enqueued_all(s, entries)),
    decreases entries.len(),
{
    if entries.len() > 0 {
        lemma_enqueued_all_sorted(s, entries.drop_last());
        lemma_enqueued_sorted(enqueued_all(s, entries.drop_last()), entries.last());
    }
}

/// Two songs requested at different moments end up in the same places
/// whichever of them is acquired first.
pub proof fn lemma_enqueued_commutes(s: Seq<ScheduledSong>, a: ScheduledSong, b: ScheduledSong)
    requires
        a.requested_at != b.requested_at,
    ensures
        enqueued(enqueued(s, a), b) == enqueued(enqueued(s, b), a),
{
    if a.requested_at < b.requested_at {
        lemma_enqueued_commutes_ordered(s, a, b);
    } else {
        lemma_enqueued_commutes_ordered(s, b, a);
    }
}

proof fn lemma_enqueued_commutes_ordered(s: Seq<ScheduledSong>, a: ScheduledSong, b: ScheduledSong)
    requires
        a.requested_at < b.requested_at,
    ensures
        enqueued(enqueued(s, a), b) == enqueued(enqueued(s, b), a),
{
    let pa = |e: ScheduledSong| e.requested_at <= a.requested_at;
    let pb = |e: ScheduledSong| e.requested_at <= b.requested_at;
    lemma_leading_bounds(s, pa);
    lemma_leading_bounds(s, pb);
    let ka = insertion_point(s, a.requested_at);
    let kb = insertion_point(s, b.requested_at);
    if kb < ka {
        assert(pa(s[kb]));
        assert(!pb(s[kb]));
    }
    let sa = s.insert(ka, a);
    let sb = s.insert(kb, b);
    assert forall|j: int| 0 <= j < kb + 1 implies pb(#[trigger] sa[j]) by {
        if j < ka {
            assert(sa[j] == s[j]);
            assert(pa(s[j]));
        } else if j > ka {
            assert(sa[j] == s[j - 1]);
            assert(pb(s[j - 1]));
        }
    }
    if kb + 1 < sa.len() {
        assert(sa[kb + 1] == s[kb]);
    }
    lemma_leading(sa, pb, kb + 1);
    assert forall|j: int| 0 <= j < ka implies pa(#[trigger] sb[j]) by {
        assert(sb[j] == s[j]);
    }
    if ka < kb {
        assert(sb[ka] == s[ka]);
    } else {
        assert(sb[ka] == b);
    }
    lemma_leading(sb, pa, ka);
    assert(sa.insert(kb + 1, b) =~= sb.insert(ka, a));
}

/// Of the effects `fx` at most one starts a song, and a song that is
/// started is the active song of `q`.
pub open spec fn starts_only_active(q: QueueView, fx: Seq<QueueEffect>) -> bool {
    &&& forall|i: int, j: int| 0 <= i < j < fx.len() ==> !(fx[i] is Play && fx[j] is Play)
    &&& forall|i: int| 0 <= i < fx.len() && fx[i] is Play ==> q.active == Some(fx[i]->song)
}

/// No step of the queue starts two songs, and a song is only started as
/// the one active song: no second song is ever active beside it.
pub proof fn lemma_one_active_song(
    q: QueueView,
    job: QueueJob,
    picked: Option<Song>,
    song: Song,
    r: SongRequest,
    uuid: u128,
    error: AcquisitionError,
    outcome: Result<NewSong, AcquisitionError>,
    saved: Result<Song, AcquisitionError>,
)
    ensures
        starts_only_active(q.handle(job).0, q.handle(job).1),
        starts_only_active(q.advance().0, q.advance().1),
        starts_only_active(q.finished().0, q.finished().1),
        starts_only_active(q.random_song(picked).0, q.random_song(picked).1),
        starts_only_active(q.acquired(song, r, uuid).0, q.acquired(song, r, uuid).1),
        starts_only_active(q.failed(r, error).0, q.failed(r, error).1),
        starts_only_active(q.lookup(r, saved, uuid).0, q.lookup(r, saved, uuid).1),
        starts_only_active(q.downloaded(r, outcome).0, q.downloaded(r, outcome).1),
        starts_only_active(q.saved(r, saved, uuid).0, q.saved(r, saved, uuid).1),
{
}

/// Whatever happens to a well-formed queue, it stays well-formed: the
/// pending songs are in the order of their requests in every state that
/// the queue can reach.
pub proof fn lemma_every_step_keeps_wf(
    q: QueueView,
    job: QueueJob,
    picked: Option<Song>,
    song: Song,
    r: SongRequest,
    uuid: u128,
    error: AcquisitionError,
    outcome: Result<NewSong, AcquisitionError>,
    saved: Result<Song, AcquisitionError>,
)
    requires
        q.wf(),
    ensures
        q.handle(job).0.wf(),
        q.advance().0.wf(),
        q.finished().0.wf(),
        q.random_song(picked).0.wf(),
        q.acquired(song, r, uuid).0.wf(),
        q.failed(r, error).0.wf(),
        q.lookup(r, saved, uuid).0.wf(),
        q.downloaded(r, outcome).0.wf(),
        q.saved(r, saved, uuid).0.wf(),
{
    lemma_handle_keeps_wf(q, job);
    lemma_advance_keeps_wf(q);
    lemma_advance_keeps_wf(QueueView { active: None, ..q });
    lemma_acquired_keeps_wf(q, song, r, uuid);
    lemma_release_keeps_wf(q, r);
    match saved {
        Ok(stored) => lemma_acquired_keeps_wf(q, stored, r, uuid),
        Err(_) => {},
    }
}

/// Skipping the active song cancels its playback, once, and starts
/// nothing by itself; the end of that playback then advances the queue
/// exactly as the natural end of the song would: once.
pub proof fn lemma_skip_advances_once(q: QueueView)
    requires
        q.active is Some,
    ensures
        q.skip() == (q, seq![QueueEffect::Skip]),
        q.skip().0.finished() == (QueueView { active: None, ..q }).advance(),
{
}

/// Without an active song a skip changes nothing and causes nothing.
pub proof fn lemma_skip_when_idle(q: QueueView)
    requires
        q.active is None,
    ensures
        q.skip() == (q, Seq::<QueueEffect>::empty()),
{
}

/// Deleting a song that is not pending leaves the queue as it is; the
/// clients are told all the same, and nothing fails.
pub proof fn lemma_delete_absent(q: QueueView, uuid: u128)
    requires
        forall|i: int| 0 <= i < q.pending.len() ==> (#[trigger] q.pending[i]).uuid != uuid,
    ensures
        q.delete(uuid).0 == q,
    decreases q.pending.len(),
{
    reveal(Seq::filter);
    if q.pending.len() > 0 {
        let rest = QueueView { pending: q.pending.drop_last(), ..q };
        assert forall|i: int| 0 <= i < rest.pending.len() implies (#[trigger] rest.pending[i]).uuid != uuid by {
            assert(rest.pending[i] == q.pending[i]);
        }
        lemma_delete_absent(rest, uuid);
        assert(without_uuid(rest.pending, uuid) == rest.pending);
        assert(q.pending.last() == q.pending[q.pending.len() - 1]);
        assert(without_uuid(q.pending, uuid) =~= q.pending);
    } else {
        assert(without_uuid(q.pending, uuid) =~= q.pending);
    }
}

/// A song that is deleted is no longer pending afterwards.
pub proof fn lemma_delete_removes(q: QueueView, uuid: u128)
    ensures
        forall|i: int| 0 <= i < q.delete(uuid).0.pending.len() ==> (#[trigger] q.delete(uuid).0.pending[i]).uuid != uuid,
{
    let keep = |e: ScheduledSong| e.uuid != uuid;
    assert forall|i: int| 0 <= i < q.delete(uuid).0.pending.len() implies (#[trigger] q.delete(
        uuid,
    ).0.pending[i]).uuid != uuid by {
        q.pending.lemma_filter_pred(keep, i);
    }
}

/// A second request for a track whose acquisition has not ended starts
/// no lookup and no download: it waits.
pub proof fn lemma_repeated_request_waits(q: QueueView, a: SongRequest, b: SongRequest)
    requires
        same_track(a, b),
    ensures
        q.request(a).0.request(b) == (
            QueueView { waiting: q.request(a).0.waiting.push(b), ..q.request(a).0 },
            Seq::<QueueEffect>::empty(),
        ),
{
    let q1 = q.request(a).0;
    let pa = |x: SongRequest| !same_track(x, a);
    let pb = |x: SongRequest| !same_track(x, b);
    lemma_leading_bounds(q.acquiring, pa);
    lemma_leading_bounds(q1.acquiring, pb);
    let k = first_track(q.acquiring, a);
    if k < q.acquiring.len() {
        assert(q1.acquiring == q.acquiring);
        if first_track(q1.acquiring, b) >= q1.acquiring.len() {
            assert(pb(q1.acquiring[k]));
        }
    } else {
        let n = q.acquiring.len() as int;
        assert(q1.acquiring[n] == a);
        if first_track(q1.acquiring, b) >= q1.acquiring.len() {
            assert(pb(q1.acquiring[n]));
        }
    }
}

/// When the acquisition of a track ends, the first request that waited
/// for it goes on with a look into the store, where it finds what the
/// first acquisition has left.
pub proof fn lemma_release_resumes_waiting(q: QueueView, r: SongRequest, i: int)
    requires
        0 <= i < q.waiting.len(),
        same_track(q.waiting[i], r),
    ensures
        q.release(r).1.len() == 1,
        q.release(r).1[0] is CheckSongExistence,
        same_track(q.release(r).1[0]->CheckSongExistence_requested_song, r),
        q.release(r).0.waiting.len() == q.waiting.len() - 1,
{
    let p = |x: SongRequest| !same_track(x, r);
    lemma_leading_bounds(q.waiting, p);
    if first_track(q.waiting, r) >= q.waiting.len() {
        assert(p(q.waiting[i]));
    }
}

/// A failed acquisition is never announced to all clients: what it
/// causes is the word to the requester and, at most, the lookup for a
/// request that waited.
pub proof fn lemma_failure_is_not_published(q: QueueView, r: SongRequest, error: AcquisitionError)
    ensures
        q.failed(r, error).1[0] == (QueueEffect::AcquisitionFailed { requested_song: r, error }),
        forall|i: int|
            0 <= i < q.failed(r, error).1.len() ==> !((#[trigger] q.failed(r, error).1[i]) is Publish),
        q.failed(r, error).0.active == q.active,
        q.failed(r, error).0.pending == q.pending,
{
}

} // verus!
