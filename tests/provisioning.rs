use vulcast::provision::{MediaKind, TransportProvisioner};
use vulcast::{
    AssignVulcastToRelay, FfmpegStreamer, GStreamer, LogInAsVulcast, Opts, PlainTransportOptions, TransportProtocol,
    TransportTuple,
};

fn local(id: &str, ip: &str, port: u16) -> PlainTransportOptions {
    PlainTransportOptions {
        id: id.to_string(),
        tuple: TransportTuple::LocalOnly { local_ip: ip.to_string(), local_port: port, protocol: TransportProtocol::Udp },
    }
}

#[test]
fn tuple_gives_local_endpoint_in_both_forms() {
    let a = TransportTuple::LocalOnly { local_ip: "10.0.0.1".to_string(), local_port: 4000, protocol: TransportProtocol::Udp };
    let b = TransportTuple::WithRemote {
        local_ip: "10.0.0.2".to_string(),
        local_port: 4001,
        remote_ip: "1.2.3.4".to_string(),
        remote_port: 9,
        protocol: TransportProtocol::Tcp,
    };
    assert_eq!(a.local_ip(), "10.0.0.1");
    assert_eq!(a.local_port(), 4000);
    assert_eq!(b.local_ip(), "10.0.0.2");
    assert_eq!(b.local_port(), 4001);
}

#[test]
fn replies_are_kept_apart_by_request() {
    let mut p = TransportProvisioner::new(3, 4);
    assert_eq!(p.on_reply(4, local("video", "10.0.0.9", 6000)), Some(MediaKind::Video));
    assert_eq!(p.on_reply(9, local("other", "10.0.0.1", 1)), None);
    assert_eq!(p.on_reply(3, local("audio", "10.0.0.8", 5000)), Some(MediaKind::Audio));
    assert_eq!(p.on_reply(3, local("again", "10.0.0.7", 7)), None);
    assert_eq!(p.audio().as_ref().unwrap().id, "audio");
    assert_eq!(p.video().as_ref().unwrap().id, "video");
}

#[test]
fn gstreamer_sink_settings_point_at_transports() {
    let g = GStreamer::new();
    let s = g.sink_settings(&local("a", "192.168.1.5", 40001), &local("v", "192.168.1.6", 40002));
    assert_eq!(s, vec!["host=192.168.1.6", "port=40002", "host=192.168.1.5", "port=40001"]);
}

#[test]
fn ffmpeg_tee_output_points_at_transports() {
    let f = FfmpegStreamer::_new();
    assert_eq!(
        f.tee_output(&local("a", "1.1.1.1", 10), &local("v", "2.2.2.2", 20)),
        "[select=a:f=rtp:ssrc=11111111:payload_type=101]rtp://1.1.1.1:10|\
         [select=v:f=rtp:ssrc=22222222:payload_type=102]rtp://2.2.2.2:20"
    );
}

#[test]
fn login_request_body_carries_credentials() {
    let q = LogInAsVulcast { vulcast_id: "dev-1".to_string(), secret: "s\"x".to_string() };
    assert_eq!(q.variables(), "{\"vulcastId\":\"dev-1\",\"secret\":\"s\\\"x\"}");
    assert_eq!(
        q.request_body("mutation M { a }"),
        "{\"query\":\"mutation M { a }\",\"variables\":{\"vulcastId\":\"dev-1\",\"secret\":\"s\\\"x\"},\"operationName\":\"LogInAsVulcast\"}"
    );
}

#[test]
fn assignment_request_uses_prefixed_bearer() {
    let q = AssignVulcastToRelay { access_token: "abc".to_string() };
    assert_eq!(q.bearer(), "vulcast_abc");
    assert_eq!(
        q.request_body("mutation A { b }"),
        "{\"query\":\"mutation A { b }\",\"variables\":{},\"operationName\":\"AssignVulcastToRelay\"}"
    );
}

#[test]
fn option_paths() {
    let o = Opts { no_controller: false, config_dir: "/home/u/.vulcast".to_string() };
    assert_eq!(o.config_file(), "/home/u/.vulcast/vulcast.conf");
    assert_eq!(o.assignment_file(), "/home/u/.vulcast/assigned_relay");
}
