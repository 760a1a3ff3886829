use radio_server::cache_keys::{AppCacheKey, CacheKey};
use radio_server::config::{
    AppConfig, AppEnvironment, DatabaseConfig, RedisConfig, SMTPConfig, SecretConfig, SongsConfig,
    DEFAULT_PORT,
};
use radio_server::error::{AppError, ErrorCode};
use radio_server::models::NewTrack;
use radio_server::otp::OTPService;
use radio_server::player::{track_file_name, track_file_path, PlayerService};
use radio_server::playlist::PlaylistService;
use radio_server::smtp::{registration_message, registration_text, SMTPService};
use radio_server::text::{decimal, push_decimal, push_decimal_i32, same_text};
use radio_server::token::{TokenService, TokenType};
use radio_server::track::{
    admit_track, audio_id, search_results, SearchTrackDTO, TrackFromApi, MAX_TRACK_DURATION_SEC,
    MUSIC_API_VERSION,
};
use std::sync::Arc;

fn config() -> AppConfig {
    AppConfig {
        env: AppEnvironment::Development,
        db_config: DatabaseConfig { url: "postgres://db".to_string() },
        redis_config: RedisConfig { url: "redis://cache".to_string() },
        app_port: DEFAULT_PORT,
        music_api_url: "https://music.example/method/audio".to_string(),
        music_api_token: "token".to_string(),
        smtp_config: SMTPConfig {
            from: "radio@example.org".to_string(),
            host: "smtp.example.org".to_string(),
            port: 587,
            login: "radio".to_string(),
            password: "hunter2".to_string(),
        },
        secret_config: SecretConfig {
            sign_up_secret: "s-sign-up".to_string(),
            restore_secret: "s-restore".to_string(),
            access_secret: "s-access".to_string(),
            refresh_secret: "s-refresh".to_string(),
        },
        songs_config: SongsConfig { songs_dir_path: "/var/songs".to_string() },
    }
}

fn found(id: i32, duration: i32) -> TrackFromApi {
    TrackFromApi {
        id,
        owner_id: -id,
        artist: "Artist".to_string(),
        title: format!("Title {}", id),
        duration,
        date: 1_700_000_000,
        url: format!("https://audio.example/{}", id),
    }
}

#[test]
fn cache_keys_are_built_from_their_parts() {
    assert_eq!(AppCacheKey::SESSION("abc").build_key(), "AUTH_SESSION_abc");
    assert_eq!(AppCacheKey::SIGN_UP_OTP("a@b.c").build_key(), "SIGN_UP_OTP_a@b.c");
    assert_eq!(AppCacheKey::PLAYLIST().build_key(), "PLAYLIST");
    assert_eq!(AppCacheKey::SESSION("").build_key(), "AUTH_SESSION_");
    assert_eq!(CacheKey::SESSION("xyz".to_string()).build_key(), "AUTH_SESSION_xyz");
}

#[test]
fn environment_from_setting() {
    assert_eq!(AppEnvironment::from_setting(Some("production")), AppEnvironment::Production);
    assert_eq!(AppEnvironment::from_setting(Some("Production")), AppEnvironment::Development);
    assert_eq!(AppEnvironment::from_setting(Some("")), AppEnvironment::Development);
    assert_eq!(AppEnvironment::from_setting(None), AppEnvironment::Development);
    assert_eq!(DEFAULT_PORT, 8080);
}

#[test]
fn decimal_texts() {
    assert_eq!(decimal(0), "0");
    assert_eq!(decimal(7), "7");
    assert_eq!(decimal(10), "10");
    assert_eq!(decimal(1234567890), "1234567890");
    assert_eq!(decimal(u64::MAX), "18446744073709551615");
    let mut text = "n=".to_string();
    push_decimal(&mut text, 405);
    assert_eq!(text, "n=405");
    let mut text = String::new();
    push_decimal_i32(&mut text, -17);
    push_decimal_i32(&mut text, 0);
    push_decimal_i32(&mut text, i32::MIN);
    push_decimal_i32(&mut text, i32::MAX);
    assert_eq!(text, "-170-21474836482147483647");
    assert!(same_text("abc", "abc"));
    assert!(!same_text("abc", "abd"));
    assert!(!same_text("abc", "ab"));
}

#[test]
fn otp_length_is_checked() {
    let service = OTPService::new();
    assert_eq!(
        service.generate(0),
        Err(AppError::Internal("OTP length must be greater than 0".to_string()))
    );
    assert_eq!(
        service.generate(10),
        Err(AppError::Internal("OTP length must be lesser than 10".to_string()))
    );
    assert_eq!(
        service.generate(u32::MAX),
        Err(AppError::Internal("OTP length must be lesser than 10".to_string()))
    );
}

#[test]
fn otp_has_the_asked_number_of_digits() {
    let service = OTPService::new();
    for len in 1..=9u32 {
        for _ in 0..50 {
            let otp = service.generate(len).expect("length is in range");
            assert!(otp >= 10u32.pow(len - 1));
            assert!(otp < 10u32.pow(len) || len == 10);
            assert_eq!(otp.to_string().len() as u32, len);
        }
    }
}

#[test]
fn otp_values_vary() {
    let service = OTPService::new();
    let first = service.generate(9).expect("length is in range");
    let mut all_same = true;
    for _ in 0..20 {
        if service.generate(9).expect("length is in range") != first {
            all_same = false;
        }
    }
    assert!(!all_same);
}

#[test]
fn otp_expires_after_five_minutes() {
    let service = OTPService::new();
    assert!(!service.is_otp_expired_at(1000, 1000));
    assert!(!service.is_otp_expired_at(1300, 1000));
    assert!(service.is_otp_expired_at(1301, 1000));
    assert!(!service.is_otp_expired_at(1000, 2000));
    assert!(service.is_otp_expired_at(u64::MAX, 0));
    assert!(service.is_otp_expired(0));
    assert!(!service.is_otp_expired(u64::MAX));
}

#[test]
fn otp_fingerprint_is_a_decimal_number_that_depends_on_both_parts() {
    let service = OTPService::new();
    let a = service.make_otp_hash("a@example.org", 123456);
    assert!(!a.is_empty());
    assert!(a.chars().all(|c| c.is_ascii_digit()));
    assert_eq!(a.parse::<u64>().expect("a 64-bit number").to_string(), a);
    assert_eq!(a, service.make_otp_hash("a@example.org", 123456));
    assert_ne!(a, service.make_otp_hash("a@example.org", 123457));
    assert_ne!(a, service.make_otp_hash("b@example.org", 123456));
}

#[test]
fn token_service_picks_the_secret_of_the_kind() {
    let service = TokenService::new(Arc::new(config()));
    assert_eq!(service.get_secret_by_token_type(&TokenType::Access), "s-access");
    assert_eq!(service.get_secret_by_token_type(&TokenType::Refresh), "s-refresh");
    assert_eq!(service.get_secret_by_token_type(&TokenType::SignUp), "s-sign-up");
    assert_eq!(service.get_secret_by_token_type(&TokenType::Restore), "s-restore");
}

#[test]
fn smtp_service_copies_the_account() {
    let service = SMTPService::new(&config());
    assert_eq!(service.from(), "radio@example.org");
    assert_eq!(service.host(), "smtp.example.org");
    assert_eq!(service.port(), 587);
    assert_eq!(service.login(), "radio");
    assert_eq!(service.password(), "hunter2");
}

#[test]
fn registration_mail() {
    let text = registration_text(123456);
    assert_eq!(text, "Ваш код подтверждения: 123456");
    assert_eq!(registration_text(0), "Ваш код подтверждения: 0");
    let message = registration_message("a@example.org", &text);
    assert_eq!(message.to, "a@example.org");
    assert_eq!(message.subject, "Код для подтверждения регистрации");
    assert_eq!(message.text_body, Some("Ваш код подтверждения: 123456"));
    assert_eq!(message.html_body, None);
}

#[test]
fn file_names_in_the_cache() {
    assert_eq!(audio_id(-2001, 17), "-2001_17");
    assert_eq!(track_file_name(5, 42), "5_42.mp3");
    assert_eq!(track_file_name(-2001, 17), "-2001_17.mp3");
    assert_eq!(track_file_path("/var/songs", 5, 42), "/var/songs/5_42.mp3");
    assert_eq!(track_file_path("", 0, 0), "/0_0.mp3");
    let player = PlayerService::new(Arc::new(config()), Arc::new(PlaylistService::new()));
    assert_eq!(player.songs_dir(), "/var/songs");
    assert_eq!(player.track_path(42, 5), "/var/songs/5_42.mp3");
    assert_eq!(MUSIC_API_VERSION, "5.131");
}

#[test]
fn search_results_name_each_track() {
    let response = search_results(&vec![found(1, 100), found(2, 700)]);
    assert_eq!(
        response.tracks,
        vec![
            SearchTrackDTO { name: "Artist - Title 1".to_string(), duration: 100, song_id: 1, owner_id: -1 },
            SearchTrackDTO { name: "Artist - Title 2".to_string(), duration: 700, song_id: 2, owner_id: -2 },
        ]
    );
    assert!(search_results(&Vec::new()).tracks.is_empty());
}

#[test]
fn admission_takes_the_first_track() {
    let admitted = admit_track(&vec![found(1, 600), found(2, 10)]).expect("track is admitted");
    assert_eq!(
        admitted,
        NewTrack {
            song_id: 1,
            owner_id: -1,
            download_url: "https://audio.example/1".to_string(),
            title: "Title 1".to_string(),
            artist: "Artist".to_string(),
            duration_sec: 600,
            likes_count: None,
            listens_count: None,
        }
    );
    assert_eq!(MAX_TRACK_DURATION_SEC, 600);
}

#[test]
fn admission_refuses_an_empty_answer() {
    assert_eq!(
        admit_track(&Vec::new()),
        Err(AppError::BadRequest("Track not found in music API".to_string(), None))
    );
}

#[test]
fn admission_refuses_a_long_track() {
    assert_eq!(
        admit_track(&vec![found(1, 601), found(2, 10)]),
        Err(AppError::BadRequest(
            "Track duration limit".to_string(),
            Some(ErrorCode::TrackDurationLimit)
        ))
    );
}
