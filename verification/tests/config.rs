use yt_dlp_webui::config::{
    default_host, default_max_concurrent, default_port, default_reaper_file_ttl_secs, Config,
    JobsConfig, ServerConfig,
};

#[test]
fn defaults_match_the_documented_values() {
    assert_eq!(default_host(), "0.0.0.0");
    assert_eq!(default_port(), 8080);
    assert_eq!(default_max_concurrent(), 3);
    assert_eq!(default_reaper_file_ttl_secs(), 600);
}

#[test]
fn default_config_uses_every_default() {
    let c = Config::default();
    assert_eq!(c.server.host, "0.0.0.0");
    assert_eq!(c.server.port, 8080);
    assert_eq!(c.jobs.max_concurrent, 3);
    assert_eq!(c.jobs.file_ttl_secs, 600);
    let s = ServerConfig::default();
    assert_eq!((s.host.as_str(), s.port), ("0.0.0.0", 8080));
    let j = JobsConfig::default();
    assert_eq!((j.max_concurrent, j.file_ttl_secs), (3, 600));
}
