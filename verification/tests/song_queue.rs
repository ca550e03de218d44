use home_fm_server::song::{AcquisitionError, NewSong, Song, SongRequest};
use home_fm_server::song_queue::{Notice, QueueEffect, QueueJob, QueueState, ScheduledSong, SongQueue};

fn song(id: i32, name: &str) -> Song {
    Song {
        id,
        name: name.to_string(),
        path: format!("/songs/{}.wav", name),
        duration: 180,
        thumbnail_url: String::new(),
        artists: "Artist".to_string(),
        nsfw: false,
    }
}

fn entry(id: i32, name: &str, requested_at: i64, uuid: u128) -> ScheduledSong {
    ScheduledSong { song: song(id, name), requested_at, uuid }
}

fn request(name: &str, requested_at: i64) -> SongRequest {
    SongRequest {
        artists: "Artist".to_string(),
        name: name.to_string(),
        requested_at,
        thumbnail_url: None,
        requester: 1,
    }
}

fn playing_queue() -> SongQueue {
    let mut q = SongQueue::new();
    q.handle_activities(QueueJob::PlaySong { song: song(0, "Opening") });
    q
}

fn next_song_effects(s: Song) -> Vec<QueueEffect> {
    vec![
        QueueEffect::Play { song: s.clone() },
        QueueEffect::Publish { notice: Notice::NextSong { next_song: s } },
    ]
}

#[test]
fn new_queue_is_idle_and_empty() {
    let q = SongQueue::new();
    assert_eq!(q.active_song(), &None);
    assert!(q.songs_queue().is_empty());
    assert!(q.acquiring().is_empty());
    assert!(q.waiting().is_empty());
}

#[test]
fn advance_on_empty_queue_plays_the_random_pick() {
    let mut q = SongQueue::new();
    let store = vec![song(1, "One"), song(2, "Two"), song(3, "Three")];
    assert_eq!(q.next_song(), vec![QueueEffect::PickRandomSong]);
    assert_eq!(q.active_song(), &None);
    let picked = store[1].clone();
    let fx = q.random_song_result(Some(picked.clone()));
    assert_eq!(fx, next_song_effects(picked.clone()));
    assert_eq!(q.active_song(), &Some(picked));
    assert!(q.songs_queue().is_empty());
}

#[test]
fn later_request_that_finishes_first_stays_behind() {
    let mut q = playing_queue();
    let a = entry(1, "Song A", 0, 11);
    let b = entry(2, "Song B", 1, 22);
    assert!(q.handle_activities(QueueJob::ScheduleSong { scheduled_song: b.clone() }).is_empty());
    assert!(q.handle_activities(QueueJob::ScheduleSong { scheduled_song: a.clone() }).is_empty());
    assert_eq!(q.songs_queue(), &vec![a, b]);
}

#[test]
fn empty_store_and_empty_queue_leave_the_queue_idle() {
    let mut q = SongQueue::new();
    assert_eq!(q.next_song(), vec![QueueEffect::PickRandomSong]);
    let fx = q.random_song_result(None);
    assert_eq!(fx, vec![QueueEffect::Publish { notice: Notice::NoSongsAvailable }]);
    assert_eq!(q.active_song(), &None);
    assert!(q.songs_queue().is_empty());
}

#[test]
fn skip_without_active_song_does_nothing() {
    let mut q = SongQueue::new();
    q.handle_activities(QueueJob::DownloadSong { requested_song: request("Waiting", 3) });
    let before = q.queue_state();
    assert!(q.handle_activities(QueueJob::SkipSong).is_empty());
    assert_eq!(q.queue_state(), before);
    assert_eq!(q.acquiring().len(), 1);
}

#[test]
fn skip_with_active_song_cancels_once() {
    let mut q = playing_queue();
    q.handle_activities(QueueJob::ScheduleSong { scheduled_song: entry(1, "Next", 5, 1) });
    let fx = q.handle_activities(QueueJob::SkipSong);
    assert_eq!(fx, vec![QueueEffect::Skip]);
    assert_eq!(q.active_song(), &Some(song(0, "Opening")));
    assert_eq!(q.songs_queue().len(), 1);
    let fx = q.playback_finished();
    assert_eq!(fx, next_song_effects(song(1, "Next")));
    assert_eq!(q.active_song(), &Some(song(1, "Next")));
    assert!(q.songs_queue().is_empty());
}

#[test]
fn playback_finished_with_nothing_pending_asks_for_a_random_song() {
    let mut q = playing_queue();
    let fx = q.playback_finished();
    assert_eq!(fx, vec![QueueEffect::PickRandomSong]);
    assert_eq!(q.active_song(), &None);
}

#[test]
fn play_song_job_makes_the_song_active() {
    let mut q = SongQueue::new();
    let fx = q.handle_activities(QueueJob::PlaySong { song: song(7, "Seven") });
    assert_eq!(fx, next_song_effects(song(7, "Seven")));
    assert_eq!(q.active_song(), &Some(song(7, "Seven")));
}

#[test]
fn play_song_builds_the_instruction_for_the_player() {
    let q = SongQueue::new();
    assert_eq!(q.play_song(&song(4, "Four")), QueueEffect::Play { song: song(4, "Four") });
}

#[test]
fn scheduling_on_an_idle_queue_starts_the_song_at_once() {
    let mut q = SongQueue::new();
    let fx = q.handle_activities(QueueJob::ScheduleSong { scheduled_song: entry(1, "First", 9, 1) });
    assert_eq!(fx, next_song_effects(song(1, "First")));
    assert_eq!(q.active_song(), &Some(song(1, "First")));
    assert!(q.songs_queue().is_empty());
}

#[test]
fn idle_queue_with_pending_songs_starts_the_earliest_request() {
    let mut q = playing_queue();
    q.handle_activities(QueueJob::ScheduleSong { scheduled_song: entry(1, "Late", 50, 1) });
    q.handle_activities(QueueJob::ScheduleSong { scheduled_song: entry(2, "Early", 10, 2) });
    let fx = q.playback_finished();
    assert_eq!(fx, next_song_effects(song(2, "Early")));
    assert_eq!(q.songs_queue(), &vec![entry(1, "Late", 50, 1)]);
}

#[test]
fn pending_songs_stay_in_the_order_of_their_requests() {
    let mut q = playing_queue();
    let stamps: [i64; 7] = [40, -3, 17, 40, 0, 99, 17];
    for (i, t) in stamps.iter().enumerate() {
        q.handle_activities(QueueJob::ScheduleSong {
            scheduled_song: entry(i as i32, "Song", *t, i as u128),
        });
        let pending = q.songs_queue();
        for w in pending.windows(2) {
            assert!(w[0].requested_at <= w[1].requested_at);
        }
    }
    let order: Vec<u128> = q.songs_queue().iter().map(|e| e.uuid).collect();
    assert_eq!(order, vec![1, 4, 2, 6, 0, 3, 5]);
}

#[test]
fn equal_moments_keep_the_order_of_arrival() {
    let mut q = playing_queue();
    q.handle_activities(QueueJob::ScheduleSong { scheduled_song: entry(1, "A", 5, 1) });
    q.handle_activities(QueueJob::ScheduleSong { scheduled_song: entry(2, "B", 5, 2) });
    q.handle_activities(QueueJob::ScheduleSong { scheduled_song: entry(3, "C", 5, 3) });
    let order: Vec<u128> = q.songs_queue().iter().map(|e| e.uuid).collect();
    assert_eq!(order, vec![1, 2, 3]);
}

#[test]
fn extreme_moments_are_ordered_too() {
    let mut q = playing_queue();
    q.handle_activities(QueueJob::ScheduleSong { scheduled_song: entry(1, "A", i64::MAX, 1) });
    q.handle_activities(QueueJob::ScheduleSong { scheduled_song: entry(2, "B", i64::MIN, 2) });
    q.handle_activities(QueueJob::ScheduleSong { scheduled_song: entry(3, "C", i64::MAX, 3) });
    let order: Vec<u128> = q.songs_queue().iter().map(|e| e.uuid).collect();
    assert_eq!(order, vec![2, 1, 3]);
}

#[test]
fn delete_removes_the_pending_song_and_tells_the_clients() {
    let mut q = playing_queue();
    q.handle_activities(QueueJob::ScheduleSong { scheduled_song: entry(1, "A", 1, 10) });
    q.handle_activities(QueueJob::ScheduleSong { scheduled_song: entry(2, "B", 2, 20) });
    q.handle_activities(QueueJob::ScheduleSong { scheduled_song: entry(3, "C", 3, 30) });
    let fx = q.handle_activities(QueueJob::DeleteSongFromQueue { uuid: 20 });
    assert_eq!(fx, vec![QueueEffect::Publish { notice: Notice::DeleteSongFromQueue { uuid: 20 } }]);
    assert_eq!(q.songs_queue(), &vec![entry(1, "A", 1, 10), entry(3, "C", 3, 30)]);
    assert_eq!(q.active_song(), &Some(song(0, "Opening")));
}

#[test]
fn delete_of_an_unknown_song_changes_nothing() {
    let mut q = playing_queue();
    q.handle_activities(QueueJob::ScheduleSong { scheduled_song: entry(1, "A", 1, 10) });
    let before = q.queue_state();
    let fx = q.handle_activities(QueueJob::DeleteSongFromQueue { uuid: 77 });
    assert_eq!(fx, vec![QueueEffect::Publish { notice: Notice::DeleteSongFromQueue { uuid: 77 } }]);
    assert_eq!(q.queue_state(), before);
}

#[test]
fn delete_on_an_empty_queue_changes_nothing() {
    let mut q = SongQueue::new();
    let fx = q.handle_activities(QueueJob::DeleteSongFromQueue { uuid: 1 });
    assert_eq!(fx, vec![QueueEffect::Publish { notice: Notice::DeleteSongFromQueue { uuid: 1 } }]);
    assert_eq!(q.queue_state(), QueueState { active_song: None, songs_queue: vec![] });
}

#[test]
fn queue_state_shows_active_and_pending() {
    let mut q = playing_queue();
    q.handle_activities(QueueJob::ScheduleSong { scheduled_song: entry(1, "A", 1, 10) });
    assert_eq!(
        q.queue_state(),
        QueueState { active_song: Some(song(0, "Opening")), songs_queue: vec![entry(1, "A", 1, 10)] }
    );
}

#[test]
fn request_starts_with_a_look_into_the_store() {
    let mut q = SongQueue::new();
    let r = request("Song A", 0);
    let fx = q.handle_activities(QueueJob::DownloadSong { requested_song: r.clone() });
    assert_eq!(fx, vec![QueueEffect::CheckSongExistence { requested_song: r.clone() }]);
    assert_eq!(q.acquiring(), &vec![r]);
    assert!(q.waiting().is_empty());
}

#[test]
fn track_in_the_store_is_not_downloaded_again() {
    let mut q = playing_queue();
    let r = request("Song A", 4);
    q.download_song(r.clone());
    let fx = q.song_lookup_result(r.clone(), Ok(song(5, "Song A")));
    assert_eq!(fx.len(), 1);
    match &fx[0] {
        QueueEffect::Publish { notice: Notice::SongDownloadFinished { scheduled_song } } => {
            assert_eq!(scheduled_song.song, song(5, "Song A"));
            assert_eq!(scheduled_song.requested_at, 4);
            assert_eq!(q.songs_queue(), &vec![scheduled_song.clone()]);
        }
        other => panic!("unexpected effect {:?}", other),
    }
    assert!(q.acquiring().is_empty());
}

#[test]
fn track_missing_from_the_store_goes_to_the_downloader() {
    let mut q = SongQueue::new();
    let r = request("Song A", 4);
    q.download_song(r.clone());
    let fx = q.song_lookup_result(r.clone(), Err(AcquisitionError::NotFound));
    assert_eq!(fx, vec![QueueEffect::Download { requested_song: r.clone() }]);
    assert_eq!(q.acquiring(), &vec![r.clone()]);
    assert_eq!(q.get_song(r.clone()), vec![QueueEffect::Download { requested_song: r }]);
}

#[test]
fn downloaded_song_goes_to_the_store() {
    let mut q = SongQueue::new();
    let r = request("Song A", 4);
    q.download_song(r.clone());
    let new_song = NewSong {
        name: "Song A".to_string(),
        path: "/songs/Song A - Artist.wav".to_string(),
        duration: 200,
        thumbnail_url: String::new(),
        artists: "Artist".to_string(),
    };
    let fx = q.song_downloaded(r.clone(), Ok(new_song.clone()));
    assert_eq!(fx, vec![QueueEffect::SaveSong { new_song, requested_song: r.clone() }]);
    assert_eq!(q.acquiring(), &vec![r]);
}

#[test]
fn failed_download_is_reported_and_ends_the_acquisition() {
    let mut q = SongQueue::new();
    let r = request("Song A", 4);
    q.download_song(r.clone());
    let fx = q.song_downloaded(r.clone(), Err(AcquisitionError::TransferFailed));
    assert_eq!(
        fx,
        vec![QueueEffect::AcquisitionFailed { requested_song: r, error: AcquisitionError::TransferFailed }]
    );
    assert!(q.acquiring().is_empty());
    assert!(q.songs_queue().is_empty());
    assert_eq!(q.active_song(), &None);
}

#[test]
fn missing_track_is_reported_as_not_found() {
    let mut q = SongQueue::new();
    let r = request("Song A", 4);
    q.download_song(r.clone());
    let fx = q.song_downloaded(r.clone(), Err(AcquisitionError::NotFound));
    assert_eq!(
        fx,
        vec![QueueEffect::AcquisitionFailed { requested_song: r, error: AcquisitionError::NotFound }]
    );
}

#[test]
fn unreachable_store_fails_only_the_request_at_hand() {
    let mut q = playing_queue();
    let a = request("Song A", 4);
    let b = request("Song B", 5);
    q.download_song(a.clone());
    q.download_song(b.clone());
    let fx = q.song_saved(a.clone(), Err(AcquisitionError::StoreUnavailable));
    assert_eq!(
        fx,
        vec![QueueEffect::AcquisitionFailed { requested_song: a, error: AcquisitionError::StoreUnavailable }]
    );
    assert_eq!(q.acquiring(), &vec![b]);
    assert_eq!(q.active_song(), &Some(song(0, "Opening")));
}

#[test]
fn saved_song_is_scheduled_and_announced() {
    let mut q = SongQueue::new();
    let r = request("Song A", 4);
    q.download_song(r.clone());
    let fx = q.song_saved(r.clone(), Ok(song(9, "Song A")));
    assert_eq!(fx.len(), 3);
    assert_eq!(fx[0], QueueEffect::Play { song: song(9, "Song A") });
    assert_eq!(fx[1], QueueEffect::Publish { notice: Notice::NextSong { next_song: song(9, "Song A") } });
    match &fx[2] {
        QueueEffect::Publish { notice: Notice::SongDownloadFinished { scheduled_song } } => {
            assert_eq!(scheduled_song.song, song(9, "Song A"));
            assert_eq!(scheduled_song.requested_at, 4);
        }
        other => panic!("unexpected effect {:?}", other),
    }
    assert_eq!(q.active_song(), &Some(song(9, "Song A")));
    assert!(q.acquiring().is_empty());
}

#[test]
fn schedule_song_as_uses_the_given_identifier() {
    let mut q = playing_queue();
    let r = request("Song A", 4);
    let fx = q.schedule_song_as(&song(9, "Song A"), &r, 0xabc);
    let scheduled_song = ScheduledSong { song: song(9, "Song A"), requested_at: 4, uuid: 0xabc };
    assert_eq!(
        fx,
        vec![QueueEffect::Publish { notice: Notice::SongDownloadFinished { scheduled_song: scheduled_song.clone() } }]
    );
    assert_eq!(q.songs_queue(), &vec![scheduled_song]);
}

#[test]
fn schedule_song_gives_each_entry_its_own_identifier() {
    let mut q = playing_queue();
    q.schedule_song(&song(1, "A"), &request("A", 1));
    q.schedule_song(&song(2, "B"), &request("B", 2));
    let pending = q.songs_queue();
    assert_eq!(pending.len(), 2);
    assert_ne!(pending[0].uuid, pending[1].uuid);
    assert_eq!(pending[0].song, song(1, "A"));
    assert_eq!(pending[1].song, song(2, "B"));
}

#[test]
fn second_request_for_the_same_track_waits() {
    let mut q = playing_queue();
    let first = request("Song A", 0);
    let second = request("Song A", 1);
    assert_eq!(
        q.download_song(first.clone()),
        vec![QueueEffect::CheckSongExistence { requested_song: first.clone() }]
    );
    assert!(q.download_song(second.clone()).is_empty());
    assert_eq!(q.acquiring(), &vec![first.clone()]);
    assert_eq!(q.waiting(), &vec![second.clone()]);
    assert_eq!(q.song_lookup_result(first.clone(), Err(AcquisitionError::NotFound)), vec![QueueEffect::Download { requested_song: first.clone() }]);
    let fx = q.schedule_song_as(&song(3, "Song A"), &first, 5);
    assert_eq!(
        fx,
        vec![
            QueueEffect::Publish {
                notice: Notice::SongDownloadFinished {
                    scheduled_song: ScheduledSong { song: song(3, "Song A"), requested_at: 0, uuid: 5 },
                },
            },
            QueueEffect::CheckSongExistence { requested_song: second.clone() },
        ]
    );
    assert_eq!(q.acquiring(), &vec![second.clone()]);
    assert!(q.waiting().is_empty());
    let fx = q.schedule_song_as(&song(3, "Song A"), &second, 6);
    assert_eq!(fx.len(), 1);
    assert!(q.acquiring().is_empty());
    let order: Vec<u128> = q.songs_queue().iter().map(|e| e.uuid).collect();
    assert_eq!(order, vec![5, 6]);
}

#[test]
fn requests_for_other_tracks_do_not_wait() {
    let mut q = SongQueue::new();
    let a = request("Song A", 0);
    let b = request("Song B", 1);
    let mut other_artist = request("Song A", 2);
    other_artist.artists = "Somebody else".to_string();
    assert_eq!(q.download_song(a.clone()).len(), 1);
    assert_eq!(q.download_song(b.clone()).len(), 1);
    assert_eq!(q.download_song(other_artist.clone()).len(), 1);
    assert_eq!(q.acquiring(), &vec![a, b, other_artist]);
    assert!(q.waiting().is_empty());
}

#[test]
fn failed_acquisition_lets_the_waiting_request_try() {
    let mut q = SongQueue::new();
    let first = request("Song A", 0);
    let second = request("Song A", 1);
    let third = request("Song A", 2);
    q.download_song(first.clone());
    q.download_song(second.clone());
    q.download_song(third.clone());
    let fx = q.song_downloaded(first.clone(), Err(AcquisitionError::NotFound));
    assert_eq!(
        fx,
        vec![
            QueueEffect::AcquisitionFailed { requested_song: first, error: AcquisitionError::NotFound },
            QueueEffect::CheckSongExistence { requested_song: second.clone() },
        ]
    );
    assert_eq!(q.acquiring(), &vec![second]);
    assert_eq!(q.waiting(), &vec![third]);
}

#[test]
fn only_one_song_is_active_at_a_time() {
    let mut q = SongQueue::new();
    q.handle_activities(QueueJob::PlaySong { song: song(1, "One") });
    let fx = q.handle_activities(QueueJob::PlaySong { song: song(2, "Two") });
    assert_eq!(fx, next_song_effects(song(2, "Two")));
    assert_eq!(q.active_song(), &Some(song(2, "Two")));
    assert_eq!(q.queue_state().active_song, Some(song(2, "Two")));
    let fx = q.random_song_result(Some(song(3, "Three")));
    let plays = fx.iter().filter(|e| matches!(e, QueueEffect::Play { .. })).count();
    assert_eq!(plays, 1);
    assert_eq!(q.active_song(), &Some(song(3, "Three")));
}

#[test]
fn store_without_an_answer_fails_the_lookup() {
    let mut q = SongQueue::new();
    let r = request("Song A", 4);
    q.download_song(r.clone());
    let fx = q.song_lookup_result(r.clone(), Err(AcquisitionError::StoreUnavailable));
    assert_eq!(
        fx,
        vec![QueueEffect::AcquisitionFailed { requested_song: r, error: AcquisitionError::StoreUnavailable }]
    );
    assert!(q.acquiring().is_empty());
}
