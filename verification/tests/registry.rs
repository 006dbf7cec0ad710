use ava_bot::audio_path;
use ava_bot::audio_path_of;
use ava_bot::error::ErrorKind;
use ava_bot::extractors::layer_auth;
use ava_bot::extractors::AppContext;
use ava_bot::handlers::assistant_handler;
use ava_bot::handlers::chats_handler;
use ava_bot::handlers::Subscription;
use ava_bot::registry::Registry;
use ava_bot::AppState;

#[test]
fn an_empty_registry_knows_no_device() {
    let registry = Registry::new();
    assert_eq!(registry.issued(), 0);
    match registry.get("abc") {
        Ok(_) => panic!("nothing was registered"),
        Err(e) => assert_eq!(e.kind, ErrorKind::DeviceChannelNotFound),
    }
}

#[test]
fn repeated_references_yield_one_channel() {
    let mut registry = Registry::new();
    let first = registry.get_or_create("abc");
    for _ in 0..10 {
        assert_eq!(registry.get_or_create("abc"), first);
    }
    assert_eq!(registry.issued(), 1);
    match registry.get("abc") {
        Ok(c) => assert_eq!(c, first),
        Err(_) => panic!("the device was registered"),
    }
}

#[test]
fn distinct_devices_get_distinct_channels() {
    let mut registry = Registry::new();
    let a = registry.get_or_create("a");
    let b = registry.get_or_create("b");
    let c = registry.get_or_create("c");
    assert_eq!((a, b, c), (0, 1, 2));
    assert_eq!(registry.get_or_create("a"), a);
    assert_eq!(registry.get_or_create("b"), b);
    assert_eq!(registry.issued(), 3);
}

#[test]
fn a_stream_subscribes_to_the_channel_of_its_device() {
    let mut state = AppState::new("public");
    assert_eq!(state.public_path, "public");
    let ctx = AppContext { device_id: String::from("abc") };
    let first = chats_handler(&mut state, &ctx);
    assert_eq!(first, Subscription { channel: 0, created: true });
    let second = chats_handler(&mut state, &ctx);
    assert_eq!(second, Subscription { channel: 0, created: false });
    let other = chats_handler(&mut state, &AppContext { device_id: String::from("xyz") });
    assert_eq!(other, Subscription { channel: 1, created: true });
}

#[test]
fn an_upload_needs_the_channel_of_its_device() {
    let mut state = AppState::new("public");
    let ctx = AppContext { device_id: String::from("abc") };
    match assistant_handler(&state, &ctx) {
        Ok(_) => panic!("no stream was opened"),
        Err(e) => {
            assert_eq!(e.kind, ErrorKind::DeviceChannelNotFound);
            assert_eq!(e.detail, "device_id not found in senders");
        }
    }
    let subscription = chats_handler(&mut state, &ctx);
    match assistant_handler(&state, &ctx) {
        Ok(run) => {
            assert_eq!(run.channel, subscription.channel);
            assert_eq!(run.device_id, "abc");
        }
        Err(_) => panic!("a stream was opened"),
    }
}

#[test]
fn the_context_comes_from_the_cookie() {
    let ctx = AppContext::from_cookie(Some(String::from("abc"))).unwrap();
    assert_eq!(ctx.device_id, "abc");
    let refusal = AppContext::from_cookie(None).unwrap_err();
    assert_eq!(refusal, (400, "cookie `device_id` is missing"));
}

#[test]
fn a_device_without_cookie_is_issued_an_identifier() {
    assert_eq!(layer_auth(&Some(String::from("abc"))), None);
    let a = layer_auth(&None).unwrap();
    let b = layer_auth(&None).unwrap();
    assert_eq!(a.len(), 36);
    assert_eq!(b.len(), 36);
    assert_ne!(a, b);
}

#[test]
fn the_place_of_a_named_audio_file() {
    let (path, url) = audio_path_of("abc", "0123");
    assert_eq!(path, vec!["audio", "abc", "0123.mp3"]);
    assert_eq!(url, "/audio/abc/0123.mp3");
}

#[test]
fn the_place_of_a_new_audio_file() {
    let (path, url) = audio_path("abc");
    assert_eq!(path.len(), 3);
    assert_eq!(path[0], "audio");
    assert_eq!(path[1], "abc");
    assert_eq!(path[2].len(), 40);
    assert!(path[2].ends_with(".mp3"));
    assert_eq!(url, format!("/audio/abc/{}", path[2]));
    let (other, _) = audio_path("abc");
    assert_ne!(other[2], path[2]);
}
