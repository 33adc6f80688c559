use vstd::prelude::*;
use crate::text::{chars_of, push_char};

verus! {

// ---------------------------------------------------------------------------
// Operating-system media controls.

/// What the media controls show about the current track.
pub struct TrackMetadata<'a> {
    pub title: &'a str,
    pub artist: &'a str,
    pub album: &'a str,
    /// The length of the track in whole seconds.
    pub duration_secs: Option<u64>,
    pub cover_url: Option<&'a str>,
}

/// The playback state the media controls show.
#[derive(Clone, Copy, Debug, PartialEq, Eq, Structural)]
pub enum PlaybackStatus {
    Playing,
    Paused,
    Stopped,
}

/// A media-control backend of the operating system.
pub trait MediaControlsTrait {
    fn set_metadata(&mut self, metadata: &TrackMetadata) -> Result<(), String>;
    fn set_playback(&mut self, status: PlaybackStatus) -> Result<(), String>;
}

/// What keeping the media controls in step does on one frame.
#[derive(Clone, Copy, Debug, PartialEq, Eq, Structural)]
pub struct SyncPlan {
    /// Push the current track's metadata (and show a notification).
    pub push_metadata: bool,
    /// The playback state to show.
    pub status: PlaybackStatus,
}

/// Whether the media controls still have to learn of the current track.
pub struct MediaSync {
    pub metadata_dirty: bool,
}

impl MediaSync {
    pub fn new() -> (m: Self)
        ensures
            !m.metadata_dirty,
    {
        MediaSync { metadata_dirty: false }
    }

    /// Playback stopped: the controls are refreshed on the next track.
    pub fn clear(&mut self)
        ensures
            final(self).metadata_dirty,
    {
        self.metadata_dirty = true;
    }

    /// A new track started: its metadata is pushed on the next frame.
    pub fn on_track_changed(&mut self)
        ensures
            final(self).metadata_dirty,
    {
        self.metadata_dirty = true;
    }

    /// One frame: with a track loaded, push its metadata once after each
    /// change and show it playing or paused; without one, show stopped.
    pub fn sync_state(&mut self, has_track: bool, is_playing: bool) -> (p: SyncPlan)
        ensures
            p.push_metadata == sync_pushes(old(self).metadata_dirty, has_track),
            p.status == if !has_track {
                PlaybackStatus::Stopped
            } else if is_playing {
                PlaybackStatus::Playing
            } else {
                PlaybackStatus::Paused
            },
            final(self).metadata_dirty == dirty_after_sync(old(self).metadata_dirty, has_track),
    {
        if has_track {
            let push = self.metadata_dirty;
            self.metadata_dirty = false;
            SyncPlan {
                push_metadata: push,
                status: if is_playing { PlaybackStatus::Playing } else { PlaybackStatus::Paused },
            }
        } else {
            SyncPlan { push_metadata: false, status: PlaybackStatus::Stopped }
        }
    }
}

/// Whether a frame pushes metadata, given the dirty flag before it.
pub open spec fn sync_pushes(dirty: bool, has_track: bool) -> bool {
    has_track && dirty
}

/// The dirty flag after a frame.
pub open spec fn dirty_after_sync(dirty: bool, has_track: bool) -> bool {
    dirty && !has_track
}

/// A track change reaches the media controls exactly once: the first frame
/// with the track loaded pushes its metadata, and the next frame does not.
pub proof fn lemma_metadata_pushed_once(dirty: bool)
    ensures
        sync_pushes(true, true),
        !sync_pushes(dirty_after_sync(dirty, true), true),
{
}

/// The file name suffix of a cover picture: `.png` for PNG, `.jpg` for
/// anything else.
pub fn cover_art_suffix(mime: Option<&str>) -> (s: &'static str)
    ensures
        s@ == if mime matches Some(m) && m@ == "image/png"@ { ".png"@ } else { ".jpg"@ },
{
    proof {
        reveal_strlit(".png");
        reveal_strlit(".jpg");
        reveal_strlit("image/png");
    }
    match mime {
        Some(m) => {
            let png = chars_of("image/png");
            let got = chars_of(m);
            if seq_equal(&got, &png) { ".png" } else { ".jpg" }
        },
        None => ".jpg",
    }
}

fn seq_equal(a: &Vec<char>, b: &Vec<char>) -> (r: bool)
    ensures
        r == (a@ == b@),
{
    if a.len() != b.len() {
        return false;
    }
    let mut i: usize = 0;
    while i < a.len()
        invariant
            a.len() == b.len(),
            i <= a.len(),
            forall|j: int| 0 <= j < i ==> a@[j] == b@[j],
        decreases a.len() - i,
    {
        if a[i] != b[i] {
            return false;
        }
        i = i + 1;
    }
    assert(a@ =~= b@);
    true
}

/// The prefix Windows puts before extended-length paths.
pub open spec fn extended_path_prefix() -> Seq<char> {
    seq!['\\', '\\', '?', '\\']
}

/// The `file://` URL of a cover picture's path, without the extended-length
/// prefix a canonical Windows path carries.
pub open spec fn cover_url_spec(path: Seq<char>) -> Seq<char> {
    "file://"@ + if path.len() >= 4 && path.take(4) == extended_path_prefix() { path.skip(4) } else { path }
}

pub fn cover_url(path: &str) -> (u: String)
    ensures
        u@ == cover_url_spec(path@),
{
    let p = chars_of(path);
    let mut u = String::from_str("file://");
    proof {
        reveal_strlit("file://");
    }
    let strip = p.len() >= 4 && p[0] == '\\' && p[1] == '\\' && p[2] == '?' && p[3] == '\\';
    proof {
        if p@.len() >= 4 {
            if strip {
                assert(p@.take(4) =~= extended_path_prefix());
            } else {
                assert(p@.take(4)[0] == p@[0] && p@.take(4)[1] == p@[1] && p@.take(4)[2] == p@[2] && p@.take(4)[3] == p@[3]);
                assert(p@.take(4) != extended_path_prefix());
            }
        }
    }
    let start: usize = if strip { 4 } else { 0 };
    let mut i: usize = start;
    let ghost base = u@;
    while i < p.len()
        invariant
            start <= i <= p@.len(),
            u@ == base + p@.subrange(start as int, i as int),
        decreases p@.len() - i,
    {
        push_char(&mut u, p[i]);
        assert(p@.subrange(start as int, i + 1) =~= p@.subrange(start as int, i as int).push(p@[i as int]));
        i = i + 1;
    }
    assert(p@.subrange(start as int, p@.len() as int) =~= p@.skip(start as int));
    assert(p@.skip(0) =~= p@);
    u
}

// ---------------------------------------------------------------------------
// Desktop notifications.

/// What a track-change notification shows.
pub struct NotificationContent<'a> {
    pub title: &'a str,
    pub artist: &'a str,
    pub album: &'a str,
    pub cover_art_path: Option<&'a str>,
}

/// A desktop-notification backend.
pub trait NotificationsTrait {
    fn show_track_change(&self, content: &NotificationContent) -> Result<(), String>;
}

/// The notification backends available on this platform: none.
pub enum NotificationsBackend {
    /// No backend exists here.
    Unsupported,
}

/// Why no notification backend could be made.
#[derive(Clone, Copy, Debug, PartialEq, Eq, Structural)]
pub enum NotificationsError {
    /// The platform has no notification backend.
    Unsupported,
}

impl NotificationsError {
    pub fn message(&self) -> (s: &'static str)
        ensures
            s@ == "Notifications not supported on this platform"@,
    {
        proof {
            reveal_strlit("Notifications not supported on this platform");
        }
        "Notifications not supported on this platform"
    }
}

/// Toast notifications exist only on Windows; everywhere else this fails.
pub fn create_notifications() -> (r: Result<NotificationsBackend, NotificationsError>)
    ensures
        r == Err::<NotificationsBackend, NotificationsError>(NotificationsError::Unsupported),
{
    Err(NotificationsError::Unsupported)
}

/// The XML escape of one character.
pub open spec fn escape_char(c: char) -> Seq<char> {
    if c == '&' {
        "&amp;"@
    } else if c == '<' {
        "&lt;"@
    } else if c == '>' {
        "&gt;"@
    } else if c == '"' {
        "&quot;"@
    } else if c == '\'' {
        "&apos;"@
    } else {
        seq![c]
    }
}

/// `s` with the five XML special characters replaced by their entities.
pub open spec fn xml_escape_spec(s: Seq<char>) -> Seq<char>
    decreases s.len(),
{
    if s.len() == 0 { Seq::empty() } else { xml_escape_spec(s.drop_last()) + escape_char(s.last()) }
}

fn push_escaped(out: &mut String, c: char)
    ensures
        final(out)@ == old(out)@ + escape_char(c),
{
    proof {
        reveal_strlit("&amp;");
        reveal_strlit("&lt;");
        reveal_strlit("&gt;");
        reveal_strlit("&quot;");
        reveal_strlit("&apos;");
    }
    if c == '&' {
        out.append("&amp;");
    } else if c == '<' {
        out.append("&lt;");
    } else if c == '>' {
        out.append("&gt;");
    } else if c == '"' {
        out.append("&quot;");
    } else if c == '\'' {
        out.append("&apos;");
    } else {
        push_char(out, c);
        assert(old(out)@.push(c) =~= old(out)@ + seq![c]);
    }
}

/// Escapes `&`, `<`, `>`, `"` and `'` for XML text and attributes.
pub fn xml_escape(s: &str) -> (r: String)
    ensures
        r@ == xml_escape_spec(s@),
{
    let cs = chars_of(s);
    let mut out = String::new();
    let mut i: usize = 0;
    while i < cs.len()
        invariant
            i <= cs@.len(),
            cs@ == s@,
            out@ == xml_escape_spec(cs@.take(i as int)),
        decreases cs@.len() - i,
    {
        push_escaped(&mut out, cs[i]);
        assert(cs@.take(i + 1).drop_last() =~= cs@.take(i as int));
        i = i + 1;
    }
    assert(cs@.take(cs@.len() as int) =~= cs@);
    out
}

/// Escaping leaves text without special characters unchanged.
pub proof fn lemma_escape_plain_text(s: Seq<char>)
    requires
        forall|i: int| 0 <= i < s.len() ==> s[i] != '&' && s[i] != '<' && s[i] != '>' && s[i] != '"' && s[i] != '\'',
    ensures
        xml_escape_spec(s) == s,
    decreases s.len(),
{
    if s.len() > 0 {
        lemma_escape_plain_text(s.drop_last());
        assert(s.drop_last() + seq![s.last()] =~= s);
    }
}

/// The image element of a toast, for a cover picture.
pub open spec fn toast_image(path: Option<Seq<char>>) -> Seq<char> {
    match path {
        Some(p) => "<image placement=\"appLogoOverride\" src=\""@ + xml_escape_spec(p) + "\" />"@,
        None => Seq::empty(),
    }
}

/// The toast document announcing a track: the cover (when there is one),
/// the title, and the artist and album, all escaped; the toast is silent.
pub open spec fn toast_xml_spec(title: Seq<char>, artist: Seq<char>, album: Seq<char>, cover: Option<Seq<char>>) -> Seq<char> {
    "<toast>\n  <visual>\n    <binding template=\"ToastGeneric\">\n      "@
        + toast_image(cover)
        + "\n      <text>"@ + xml_escape_spec(title)
        + "</text>\n      <text>"@ + xml_escape_spec(artist) + " \u{2014} "@ + xml_escape_spec(album)
        + "</text>\n    </binding>\n  </visual>\n  <audio silent=\"true\" />\n</toast>"@
}

pub fn toast_xml(content: &NotificationContent) -> (x: String)
    ensures
        x@ == toast_xml_spec(content.title@, content.artist@, content.album@, match content.cover_art_path {
            Some(p) => Some(p@),
            None => None,
        }),
{
    proof {
        reveal_strlit("<toast>\n  <visual>\n    <binding template=\"ToastGeneric\">\n      ");
        reveal_strlit("<image placement=\"appLogoOverride\" src=\"");
        reveal_strlit("\" />");
        reveal_strlit("\n      <text>");
        reveal_strlit("</text>\n      <text>");
        reveal_strlit(" \u{2014} ");
        reveal_strlit("</text>\n    </binding>\n  </visual>\n  <audio silent=\"true\" />\n</toast>");
    }
    let mut x = String::from_str("<toast>\n  <visual>\n    <binding template=\"ToastGeneric\">\n      ");
    match content.cover_art_path {
        Some(p) => {
            x.append("<image placement=\"appLogoOverride\" src=\"");
            let e = xml_escape(p);
            x.append(e.as_str());
            x.append("\" />");
        },
        None => {},
    }
    x.append("\n      <text>");
    let t = xml_escape(content.title);
    x.append(t.as_str());
    x.append("</text>\n      <text>");
    let a = xml_escape(content.artist);
    x.append(a.as_str());
    x.append(" \u{2014} ");
    let al = xml_escape(content.album);
    x.append(al.as_str());
    x.append("</text>\n    </binding>\n  </visual>\n  <audio silent=\"true\" />\n</toast>");
    assert(x@ =~= toast_xml_spec(content.title@, content.artist@, content.album@, match content.cover_art_path {
        Some(p) => Some(p@),
        None => None,
    }));
    x
}

} // verus!
