use vstd::prelude::*;
use crate::error::Error;

verus! {

/// The volume, in percent, at which a queued track starts playing.
pub const DEFAULT_VOLUME: u32 = 50;

/// One playable audio item.
#[derive(Debug)]
pub struct Track {
    /// Where the audio comes from.
    pub source: String,
    /// Known once the track has been resolved.
    pub title: Option<String>,
    /// Playback volume in percent, at most 100.
    pub volume: u32,
    /// Playback position in seconds.
    pub position_secs: u64,
    /// Whether the source supports random access.
    pub seekable: bool,
}

impl Track {
    /// A track of `source` that has not been resolved or played yet.
    pub fn new(source: String, seekable: bool) -> (t: Track)
        ensures
            t.source == source,
            t.title is None,
            t.volume == DEFAULT_VOLUME,
            t.position_secs == 0,
            t.seekable == seekable,
    {
        Track { source, title: None, volume: DEFAULT_VOLUME, position_secs: 0, seekable }
    }
}

/// The tracks waiting in a voice session. The head, if any, is the one playing;
/// no other track plays.
pub struct PlaybackQueue {
    tracks: Vec<Track>,
}

impl View for PlaybackQueue {
    type V = Seq<Track>;

    closed spec fn view(&self) -> Seq<Track> {
        self.tracks@
    }
}

/// The track that is playing in a queue, if any.
pub open spec fn head(q: Seq<Track>) -> Option<Track> {
    if q.len() == 0 {
        None
    } else {
        Some(q[0])
    }
}

/// Why a skip is refused before the transport is asked, if it is.
pub open spec fn skip_refusal(q: Seq<Track>) -> Option<Error> {
    if q.len() == 0 {
        Some(Error::Unknown)
    } else {
        None
    }
}

/// Why a seek is refused before the transport is asked, if it is.
pub open spec fn seek_refusal(q: Seq<Track>) -> Option<Error> {
    if q.len() == 0 {
        Some(Error::Unknown)
    } else if !q[0].seekable {
        Some(Error::NotSeekable)
    } else {
        None
    }
}

/// The queue after its playing track moved to `secs`.
pub open spec fn seeked(q: Seq<Track>, secs: u64) -> Seq<Track> {
    q.update(0, Track { position_secs: secs, ..q[0] })
}

impl PlaybackQueue {
    /// An empty queue.
    pub fn new() -> (q: PlaybackQueue)
        ensures
            q@ == Seq::<Track>::empty(),
    {
        PlaybackQueue { tracks: Vec::new() }
    }

    /// How many tracks wait, the playing one included.
    pub fn len(&self) -> (n: usize)
        ensures
            n == self@.len(),
    {
        self.tracks.len()
    }

    /// Whether nothing plays.
    pub fn is_empty(&self) -> (b: bool)
        ensures
            b == (self@.len() == 0),
    {
        self.tracks.len() == 0
    }

    /// The track that is playing, if any.
    pub fn current(&self) -> (r: Option<&Track>)
        ensures
            match r {
                Some(t) => head(self@) == Some(*t),
                None => head(self@) is None,
            },
    {
        if self.tracks.len() == 0 {
            None
        } else {
            Some(&self.tracks[0])
        }
    }

    /// Appends `track`; on an empty queue it becomes the playing track.
    pub fn enqueue(&mut self, track: Track)
        ensures
            final(self)@ == old(self)@.push(track),
    {
        self.tracks.push(track);
    }

    /// Drops every track and halts playback.
    pub fn stop(&mut self)
        ensures
            final(self)@ == Seq::<Track>::empty(),
    {
        self.tracks.clear();
    }

    /// Moves past the playing track, so that the next one plays. `transport`
    /// is what the voice transport answered when told to stop the track.
    pub fn skip(&mut self, transport: Result<(), String>) -> (r: Result<(), Error>)
        ensures
            match skip_refusal(old(self)@) {
                Some(e) => r == Err::<(), Error>(e) && final(self)@ == old(self)@,
                None => match transport {
                    Err(t) => r == Err::<(), Error>(Error::Other(t)) && final(self)@ == old(self)@,
                    Ok(_) => r == Ok::<(), Error>(()) && final(self)@ == old(self)@.drop_first(),
                },
            },
    {
        if self.tracks.len() == 0 {
            return Err(Error::Unknown);
        }
        match transport {
            Err(t) => Err(Error::Other(t)),
            Ok(_) => {
                self.tracks.remove(0);
                Ok(())
            },
        }
    }

    /// The playing track came to its natural end: it leaves the queue and is
    /// handed back, and the next one plays.
    pub fn finish_current(&mut self) -> (r: Option<Track>)
        ensures
            r == head(old(self)@),
            final(self)@ == if old(self)@.len() == 0 {
                old(self)@
            } else {
                old(self)@.drop_first()
            },
    {
        if self.tracks.len() == 0 {
            None
        } else {
            Some(self.tracks.remove(0))
        }
    }

    /// Moves the playing track to `secs` seconds. `transport` is what the
    /// voice transport answered when told to seek.
    pub fn seek(&mut self, secs: u64, transport: Result<(), String>) -> (r: Result<(), Error>)
        ensures
            match seek_refusal(old(self)@) {
                Some(e) => r == Err::<(), Error>(e) && final(self)@ == old(self)@,
                None => match transport {
                    Err(t) => r == Err::<(), Error>(Error::Other(t)) && final(self)@ == old(self)@,
                    Ok(_) => r == Ok::<(), Error>(()) && final(self)@ == seeked(old(self)@, secs),
                },
            },
    {
        if self.tracks.len() == 0 {
            return Err(Error::Unknown);
        }
        if !self.tracks[0].seekable {
            return Err(Error::NotSeekable);
        }
        match transport {
            Err(t) => Err(Error::Other(t)),
            Ok(_) => {
                let mut t = self.tracks.remove(0);
                t.position_secs = secs;
                self.tracks.insert(0, t);
                Ok(())
            },
        }
    }

    /// Sets the volume of the playing track, in percent.
    pub fn set_volume(&mut self, percent: u32) -> (r: Result<(), Error>)
        ensures
            old(self)@.len() == 0 ==> r == Err::<(), Error>(Error::Unknown)
                && final(self)@ == old(self)@,
            old(self)@.len() > 0 && percent > 100 ==> r == Err::<(), Error>(
                Error::InvalidArguments,
            ) && final(self)@ == old(self)@,
            old(self)@.len() > 0 && percent <= 100 ==> r == Ok::<(), Error>(()) && final(self)@ == old(
                self,
            )@.update(0, Track { volume: percent, ..old(self)@[0] }),
    {
        if self.tracks.len() == 0 {
            return Err(Error::Unknown);
        }
        if percent > 100 {
            return Err(Error::InvalidArguments);
        }
        let mut t = self.tracks.remove(0);
        t.volume = percent;
        self.tracks.insert(0, t);
        Ok(())
    }

    /// Records the title of the playing track, once its source has been
    /// resolved. Changes nothing when no track plays.
    pub fn resolve_title(&mut self, title: String)
        ensures
            old(self)@.len() == 0 ==> final(self)@ == old(self)@,
            old(self)@.len() > 0 ==> final(self)@ == old(self)@.update(
                0,
                Track { title: Some(title), ..old(self)@[0] },
            ),
    {
        if self.tracks.len() == 0 {
            return;
        }
        let mut t = self.tracks.remove(0);
        t.title = Some(title);
        self.tracks.insert(0, t);
    }
}

} // verus!
