use vstd::prelude::*;
use crate::wire::{decimal, decimal_text};

verus! {

/// Transport-layer protocol of a media transport.
#[derive(Debug, Clone, Copy, PartialEq, Eq, Structural)]
pub enum TransportProtocol {
    Tcp,
    Udp,
}

/// The network tuple of a plain transport; addresses are in their text form.
#[derive(Debug, Clone, PartialEq, Eq)]
pub enum TransportTuple {
    LocalOnly { local_ip: String, local_port: u16, protocol: TransportProtocol },
    WithRemote {
        local_ip: String,
        local_port: u16,
        remote_ip: String,
        remote_port: u16,
        protocol: TransportProtocol,
    },
}

impl TransportTuple {
    pub open spec fn spec_local_ip(&self) -> Seq<char> {
        match self {
            TransportTuple::LocalOnly { local_ip, .. } => local_ip@,
            TransportTuple::WithRemote { local_ip, .. } => local_ip@,
        }
    }

    pub open spec fn spec_local_port(&self) -> u16 {
        match self {
            TransportTuple::LocalOnly { local_port, .. } => *local_port,
            TransportTuple::WithRemote { local_port, .. } => *local_port,
        }
    }

    /// The local address, whichever form the tuple has.
    pub fn local_ip(&self) -> (r: &str)
        ensures
            r@ == self.spec_local_ip(),
    {
        match self {
            TransportTuple::LocalOnly { local_ip, .. } => local_ip.as_str(),
            TransportTuple::WithRemote { local_ip, .. } => local_ip.as_str(),
        }
    }

    /// The local port, whichever form the tuple has.
    pub fn local_port(&self) -> (r: u16)
        ensures
            r == self.spec_local_port(),
    {
        match self {
            TransportTuple::LocalOnly { local_port, .. } => *local_port,
            TransportTuple::WithRemote { local_port, .. } => *local_port,
        }
    }
}

/// A plain transport descriptor: its id and its network tuple.
#[derive(Debug, Clone, PartialEq, Eq)]
pub struct PlainTransportOptions {
    pub id: String,
    pub tuple: TransportTuple,
}

/// The kind of media a transport carries.
#[derive(Debug, Clone, Copy, PartialEq, Eq, Structural)]
pub enum MediaKind {
    Audio,
    Video,
}

/// Collects the two plain-transport descriptors, one per media kind, each
/// from the reply to its own request.
pub struct TransportProvisioner {
    audio_request: u64,
    video_request: u64,
    audio: Option<PlainTransportOptions>,
    video: Option<PlainTransportOptions>,
}

impl TransportProvisioner {
    pub closed spec fn audio_request(&self) -> u64 {
        self.audio_request
    }

    pub closed spec fn video_request(&self) -> u64 {
        self.video_request
    }

    pub closed spec fn spec_audio(&self) -> Option<PlainTransportOptions> {
        self.audio
    }

    pub closed spec fn spec_video(&self) -> Option<PlainTransportOptions> {
        self.video
    }

    /// Awaits the replies to the audio request `audio_request` and the video
    /// request `video_request`, which are distinct correlation ids.
    pub fn new(audio_request: u64, video_request: u64) -> (r: TransportProvisioner)
        requires
            audio_request != video_request,
        ensures
            r.audio_request() == audio_request,
            r.video_request() == video_request,
            r.spec_audio() is None,
            r.spec_video() is None,
    {
        TransportProvisioner { audio_request, video_request, audio: None, video: None }
    }

    /// Records the descriptor that the reply to request `id` carries, under
    /// the kind that request was for; a reply to any other request, or a
    /// second reply to one, is ignored.
    pub fn on_reply(&mut self, id: u64, options: PlainTransportOptions) -> (r: Option<MediaKind>)
        ensures
            final(self).audio_request() == old(self).audio_request(),
            final(self).video_request() == old(self).video_request(),
            id == old(self).audio_request() && old(self).spec_audio() is None ==> r == Some(MediaKind::Audio)
                && final(self).spec_audio() == Some(options) && final(self).spec_video() == old(self).spec_video(),
            id == old(self).video_request() && old(self).spec_video() is None && id != old(self).audio_request()
                ==> r == Some(MediaKind::Video) && final(self).spec_video() == Some(options)
                && final(self).spec_audio() == old(self).spec_audio(),
            r is None ==> final(self).spec_audio() == old(self).spec_audio() && final(self).spec_video()
                == old(self).spec_video(),
            r is None <==> !((id == old(self).audio_request() && old(self).spec_audio() is None) || (id
                == old(self).video_request() && old(self).spec_video() is None)),
    {
        if id == self.audio_request && self.audio.is_none() {
            self.audio = Some(options);
            Some(MediaKind::Audio)
        } else if id == self.video_request && self.video.is_none() {
            self.video = Some(options);
            Some(MediaKind::Video)
        } else {
            None
        }
    }

    /// The audio descriptor, once its reply came.
    pub fn audio(&self) -> (r: &Option<PlainTransportOptions>)
        ensures
            *r == self.spec_audio(),
    {
        &self.audio
    }

    /// The video descriptor, once its reply came.
    pub fn video(&self) -> (r: &Option<PlainTransportOptions>)
        ensures
            *r == self.spec_video(),
    {
        &self.video
    }
}

/// The text `key=value`.
pub open spec fn setting(key: Seq<char>, value: Seq<char>) -> Seq<char> {
    key + "="@ + value
}

fn setting_text(key: &str, value: &str) -> (r: String)
    ensures
        r@ == setting(key@, value@),
{
    let mut r = String::from_str(key);
    r.append("=");
    r.append(value);
    r
}

/// Streams camera and microphone with GStreamer to the two transports.
pub struct GStreamer {}

impl GStreamer {
    pub fn new() -> (r: GStreamer) {
        GStreamer {}
    }

    /// The `host=` and `port=` settings of the video sinks, then of the audio
    /// sinks, that point the pipeline at the two transports' local tuples.
    pub fn sink_settings(&self, audio: &PlainTransportOptions, video: &PlainTransportOptions) -> (r: Vec<String>)
        ensures
            r@.len() == 4,
            r@[0]@ == setting("host"@, video.tuple.spec_local_ip()),
            r@[1]@ == setting("port"@, decimal(video.tuple.spec_local_port() as nat)),
            r@[2]@ == setting("host"@, audio.tuple.spec_local_ip()),
            r@[3]@ == setting("port"@, decimal(audio.tuple.spec_local_port() as nat)),
    {
        let mut r: Vec<String> = Vec::new();
        r.push(setting_text("host", video.tuple.local_ip()));
        let vp = decimal_text(video.tuple.local_port() as u64);
        r.push(setting_text("port", vp.as_str()));
        r.push(setting_text("host", audio.tuple.local_ip()));
        let ap = decimal_text(audio.tuple.local_port() as u64);
        r.push(setting_text("port", ap.as_str()));
        r
    }
}

/// The RTP target `rtp://host:port`.
pub open spec fn rtp_url(host: Seq<char>, port: u16) -> Seq<char> {
    "rtp://"@ + host + ":"@ + decimal(port as nat)
}

fn rtp_url_text(tuple: &TransportTuple) -> (r: String)
    ensures
        r@ == rtp_url(tuple.spec_local_ip(), tuple.spec_local_port()),
{
    let mut r = String::from_str("rtp://");
    r.append(tuple.local_ip());
    r.append(":");
    let p = decimal_text(tuple.local_port() as u64);
    r.append(p.as_str());
    r
}

/// The tee output that sends the audio and the video stream, each as RTP
/// with its payload type and SSRC, to its transport.
pub open spec fn tee_outputs(audio: Seq<char>, video: Seq<char>) -> Seq<char> {
    "[select=a:f=rtp:ssrc=11111111:payload_type=101]"@ + audio + "|[select=v:f=rtp:ssrc=22222222:payload_type=102]"@
        + video
}

/// Streams camera and microphone with FFmpeg to the two transports.
pub struct FfmpegStreamer {}

impl FfmpegStreamer {
    pub fn _new() -> (r: FfmpegStreamer) {
        FfmpegStreamer {}
    }

    /// The tee output specification that points FFmpeg at the two transports.
    pub fn tee_output(&self, audio: &PlainTransportOptions, video: &PlainTransportOptions) -> (r: String)
        ensures
            r@ == tee_outputs(
                rtp_url(audio.tuple.spec_local_ip(), audio.tuple.spec_local_port()),
                rtp_url(video.tuple.spec_local_ip(), video.tuple.spec_local_port()),
            ),
    {
        let mut r = String::from_str("[select=a:f=rtp:ssrc=11111111:payload_type=101]");
        let a = rtp_url_text(&audio.tuple);
        r.append(a.as_str());
        r.append("|[select=v:f=rtp:ssrc=22222222:payload_type=102]");
        let v = rtp_url_text(&video.tuple);
        r.append(v.as_str());
        r
    }
}

} // verus!
