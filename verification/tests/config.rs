use lazy_pregen::config::{
    Config, ConfigFile, ConfigNotice, OptionConfig, OptionResources, Resources,
};
use lazy_pregen::logging::{format_level, log_line, Level};

fn values(config: &Config) -> (u32, u32, &str, &str) {
    (
        config.radius,
        config.memory,
        &config.resources.java,
        &config.resources.server,
    )
}

const DEFAULTS: (u32, u32, &str, &str) = (5000, 2048, "java", "./server.jar");

fn full(radius: u32) -> OptionConfig {
    OptionConfig {
        radius: Some(radius),
        memory: Some(512),
        resources: Some(OptionResources {
            java: Some("/opt/java".to_string()),
            server: Some("paper.jar".to_string()),
        }),
    }
}

#[test]
fn defaults() {
    assert_eq!(values(&Config::default()), DEFAULTS);
    let resources = Resources::default();
    assert_eq!(resources.java, "java");
    assert_eq!(resources.server, "./server.jar");
}

#[test]
fn specified_options_are_kept() {
    let (config, notices) = Config::resolve(full(100));
    assert_eq!(values(&config), (100, 512, "/opt/java", "paper.jar"));
    assert!(notices.is_empty());
}

#[test]
fn written_defaults_are_read_back() {
    let config = Config::default();
    let (config, notices) = Config::resolve(OptionConfig {
        radius: Some(config.radius),
        memory: Some(config.memory),
        resources: Some(OptionResources {
            java: Some(config.resources.java),
            server: Some(config.resources.server),
        }),
    });
    assert_eq!(values(&config), DEFAULTS);
    assert!(notices.is_empty());
}

#[test]
fn unspecified_options_are_defaults() {
    let (config, notices) =
        Config::resolve(OptionConfig { radius: None, memory: None, resources: None });
    assert_eq!(values(&config), DEFAULTS);
    assert_eq!(
        notices,
        vec![
            ConfigNotice::RadiusUnspecified,
            ConfigNotice::MemoryUnspecified,
            ConfigNotice::ResourcesUnspecified,
        ]
    );
}

#[test]
fn radius_is_limited() {
    assert_eq!(Config::MAX_RADIUS, 29999984);
    let (config, notices) = Config::resolve(full(29999984));
    assert_eq!(config.radius, 29999984);
    assert!(notices.is_empty());
    let (config, notices) = Config::resolve(full(29999985));
    assert_eq!(values(&config), (5000, 512, "/opt/java", "paper.jar"));
    assert_eq!(notices, vec![ConfigNotice::RadiusTooLarge { radius: 29999985 }]);
}

#[test]
fn radius_of_zero_is_kept() {
    assert_eq!(Config::resolve(full(0)).0.radius, 0);
}

#[test]
fn resources_are_completed_one_by_one() {
    let (config, notices) = Config::resolve(OptionConfig {
        radius: Some(1),
        memory: Some(2),
        resources: Some(OptionResources { java: None, server: None }),
    });
    assert_eq!(values(&config), (1, 2, "java", "./server.jar"));
    assert_eq!(notices, vec![ConfigNotice::ServerUnspecified, ConfigNotice::JavaUnspecified]);

    let (config, notices) = Config::resolve(OptionConfig {
        radius: Some(1),
        memory: Some(2),
        resources: Some(OptionResources { java: None, server: Some("s".to_string()) }),
    });
    assert_eq!(values(&config), (1, 2, "java", "s"));
    assert_eq!(notices, vec![ConfigNotice::JavaUnspecified]);
}

#[test]
fn file_that_is_understood_is_followed() {
    let loaded = Config::load(ConfigFile::Parsed(full(64)));
    assert_eq!(values(&loaded.config), (64, 512, "/opt/java", "paper.jar"));
    assert!(loaded.notices.is_empty());
    assert!(!loaded.write_file);
}

#[test]
fn missing_file_is_written() {
    let loaded = Config::load(ConfigFile::Missing);
    assert_eq!(values(&loaded.config), DEFAULTS);
    assert!(loaded.notices.is_empty());
    assert!(loaded.write_file);
}

#[test]
fn file_that_is_not_understood_is_left_alone() {
    for file in [ConfigFile::Unparsable, ConfigFile::Unreadable, ConfigFile::Unopenable] {
        let loaded = Config::load(file);
        assert_eq!(values(&loaded.config), DEFAULTS);
        assert!(loaded.notices.is_empty());
        assert!(!loaded.write_file);
    }
}

#[test]
fn arguments_of_the_server() {
    assert_eq!(
        Config::default().server_arguments(),
        vec!["-Xmx2048M", "-jar", "./server.jar", "nogui"]
    );
    let mut config = Config::default();
    for (memory, argument) in [(0, "-Xmx0M"), (10, "-Xmx10M"), (u32::MAX, "-Xmx4294967295M")] {
        config.memory = memory;
        assert_eq!(config.server_arguments()[0], argument);
    }
}

#[test]
fn level_names() {
    assert_eq!(format_level(Level::Error), "ERROR");
    assert_eq!(format_level(Level::Warn), " WARN");
    assert_eq!(format_level(Level::Info), " INFO");
    assert_eq!(format_level(Level::Debug), "DEBUG");
    assert_eq!(format_level(Level::Trace), "TRACE");
}

#[test]
fn log_lines() {
    assert_eq!(
        log_line("12:34:56", Level::Warn, "Falling back."),
        "[12:34:56]  WARN: Falling back."
    );
    assert_eq!(log_line("00:00:00", Level::Trace, ""), "[00:00:00] TRACE: ");
}
