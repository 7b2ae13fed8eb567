//! The configuration.

use crate::text::{
    decimal, is_numeral, law_decimal_stands_for_its_number, push_decimal, value_of,
};
use vstd::prelude::*;
use vstd::string::StringExecFns;

verus! {

/// The configuration options that a configuration file may leave out.
#[derive(Debug)]
pub struct OptionConfig {
    /// The radius in blocks that will be pregenerated.
    pub radius: Option<u32>,
    /// The number of megabytes to allocate to the server.
    pub memory: Option<u32>,
    /// Used to configure the path of several resources, including the Java
    /// command and the server JAR.
    pub resources: Option<OptionResources>,
}

/// The resources that a configuration file may leave out.
#[derive(Debug)]
pub struct OptionResources {
    /// The command used to invoke Java.
    pub java: Option<String>,
    /// A path, either absolute or relative to the directory of the config file,
    /// where the server JAR is located.
    pub server: Option<String>,
}

/// The available configuration options.
#[derive(Debug)]
pub struct Config {
    /// The radius in blocks that will be pregenerated.
    pub radius: u32,
    /// The number of megabytes to allocate to the server.
    pub memory: u32,
    /// Used to configure the path of several resources, including the Java
    /// command and the server JAR.
    pub resources: Resources,
}

/// A set of configuration options that change the commands invoked or files
/// referenced in arguments passed to them.
#[derive(Debug)]
pub struct Resources {
    /// The command used to invoke Java.
    pub java: String,
    /// A path, either absolute or relative to the directory of the config file,
    /// where the server JAR is located.
    pub server: String,
}

/// Resources in mathematical terms.
pub struct ResourcesModel {
    pub java: Seq<char>,
    pub server: Seq<char>,
}

/// A configuration in mathematical terms.
pub struct ConfigModel {
    pub radius: nat,
    pub memory: nat,
    pub resources: ResourcesModel,
}

impl View for Resources {
    type V = ResourcesModel;

    open spec fn view(&self) -> ResourcesModel {
        ResourcesModel { java: self.java@, server: self.server@ }
    }
}

impl View for Config {
    type V = ConfigModel;

    open spec fn view(&self) -> ConfigModel {
        ConfigModel {
            radius: self.radius as nat,
            memory: self.memory as nat,
            resources: self.resources@,
        }
    }
}

/// The default resources.
pub open spec fn default_resources() -> ResourcesModel {
    ResourcesModel { java: "java"@, server: "./server.jar"@ }
}

/// The default configuration.
pub open spec fn default_config() -> ConfigModel {
    ConfigModel { radius: 5000, memory: 2048, resources: default_resources() }
}

impl Default for Config {
    fn default() -> (config: Config)
        ensures
            config@ == default_config(),
    {
        Config { radius: 5000, memory: 2048, resources: Default::default() }
    }
}

impl Default for Resources {
    fn default() -> (resources: Resources)
        ensures
            resources@ == default_resources(),
    {
        Resources { java: "java".to_owned(), server: "./server.jar".to_owned() }
    }
}

/// Something to tell about how a configuration file was understood.
#[derive(Clone, Copy, Debug, PartialEq, Eq, Structural)]
pub enum ConfigNotice {
    /// The radius is larger than the maximum, and the default is used.
    RadiusTooLarge { radius: u32 },
    /// The radius is unspecified, and the default is used.
    RadiusUnspecified,
    /// The memory is unspecified, and the default is used.
    MemoryUnspecified,
    /// The server JAR is unspecified, and the default is used.
    ServerUnspecified,
    /// The Java command is unspecified, and the default is used.
    JavaUnspecified,
    /// The resources are unspecified, and the defaults are used.
    ResourcesUnspecified,
}

/// The text of an optional string, or else a default.
pub open spec fn text_or(text: Option<String>, default: Seq<char>) -> Seq<char> {
    match text {
        Some(text) => text@,
        None => default,
    }
}

/// The configuration that a file asks for: what it specifies, as far as that is
/// allowed, and else the defaults.
pub open spec fn resolved(option: OptionConfig) -> ConfigModel {
    ConfigModel {
        radius: match option.radius {
            Some(radius) => if radius <= Config::MAX_RADIUS {
                radius as nat
            } else {
                default_config().radius
            },
            None => default_config().radius,
        },
        memory: match option.memory {
            Some(memory) => memory as nat,
            None => default_config().memory,
        },
        resources: match option.resources {
            Some(resources) => ResourcesModel {
                java: text_or(resources.java, default_resources().java),
                server: text_or(resources.server, default_resources().server),
            },
            None => default_resources(),
        },
    }
}

/// A sequence with the one item if a condition holds, and else an empty one.
pub open spec fn notice_if(condition: bool, notice: ConfigNotice) -> Seq<ConfigNotice> {
    if condition {
        seq![notice]
    } else {
        seq![]
    }
}

/// What there is to tell about a configuration file.
pub open spec fn notices_for(option: OptionConfig) -> Seq<ConfigNotice> {
    (match option.radius {
        Some(radius) => notice_if(
            radius > Config::MAX_RADIUS,
            ConfigNotice::RadiusTooLarge { radius },
        ),
        None => seq![ConfigNotice::RadiusUnspecified],
    }) + notice_if(option.memory is None, ConfigNotice::MemoryUnspecified) + (
    match option.resources {
        Some(resources) => notice_if(resources.server is None, ConfigNotice::ServerUnspecified)
            + notice_if(resources.java is None, ConfigNotice::JavaUnspecified),
        None => seq![ConfigNotice::ResourcesUnspecified],
    })
}

/// What was found where the configuration file is looked for.
#[derive(Debug)]
pub enum ConfigFile {
    /// The options in the file.
    Parsed(OptionConfig),
    /// The contents of the file are not understood.
    Unparsable,
    /// The file was opened and could not be read.
    Unreadable,
    /// There is no file.
    Missing,
    /// The file cannot be opened.
    Unopenable,
}

/// The configuration to use, and what to do about the file.
#[derive(Debug)]
pub struct LoadedConfig {
    pub config: Config,
    /// What to tell about the file.
    pub notices: Vec<ConfigNotice>,
    /// Whether to write a file with the configuration.
    pub write_file: bool,
}

impl Config {
    /// The largest radius in blocks that can be configured. This will practically
    /// never be reached by a pregeneration, so it is just a technicality.
    pub const MAX_RADIUS: u32 = 29999984;

    /// Fills in the default for each option that a file leaves out, and for a
    /// radius that is too large.
    pub fn resolve(option: OptionConfig) -> (r: (Config, Vec<ConfigNotice>))
        ensures
            r.0@ == resolved(option),
            r.1@ == notices_for(option),
    {
        let OptionConfig { radius, memory, resources } = option;
        let mut config: Config = Default::default();
        let mut notices: Vec<ConfigNotice> = Vec::new();

        if let Some(radius) = radius {
            if radius > Config::MAX_RADIUS {
                notices.push(ConfigNotice::RadiusTooLarge { radius });
            } else {
                config.radius = radius;
            }
        } else {
            notices.push(ConfigNotice::RadiusUnspecified);
        }

        if let Some(memory) = memory {
            config.memory = memory;
        } else {
            notices.push(ConfigNotice::MemoryUnspecified);
        }

        if let Some(OptionResources { server, java }) = resources {
            if let Some(server) = server {
                config.resources.server = server;
            } else {
                notices.push(ConfigNotice::ServerUnspecified);
            }

            if let Some(java) = java {
                config.resources.java = java;
            } else {
                notices.push(ConfigNotice::JavaUnspecified);
            }
        } else {
            notices.push(ConfigNotice::ResourcesUnspecified);
        }

        (config, notices)
    }

    /// Decides on the configuration: what a file that is understood asks for, and
    /// else the default, which is written down if there is no file yet.
    pub fn load(file: ConfigFile) -> (loaded: LoadedConfig)
        ensures
            match file {
                ConfigFile::Parsed(option) => {
                    &&& loaded.config@ == resolved(option)
                    &&& loaded.notices@ == notices_for(option)
                },
                _ => {
                    &&& loaded.config@ == default_config()
                    &&& loaded.notices@.len() == 0
                },
            },
            loaded.write_file == file is Missing,
            loaded.config.radius <= Config::MAX_RADIUS,
    {
        match file {
            ConfigFile::Parsed(option) => {
                let (config, notices) = Config::resolve(option);
                LoadedConfig { config, notices, write_file: false }
            },
            ConfigFile::Missing => LoadedConfig {
                config: Default::default(),
                notices: Vec::new(),
                write_file: true,
            },
            _ => LoadedConfig {
                config: Default::default(),
                notices: Vec::new(),
                write_file: false,
            },
        }
    }

    /// The arguments with which Java runs the server.
    pub fn server_arguments(&self) -> (arguments: Vec<String>)
        ensures
            arguments@.len() == 4,
            arguments@[0]@ == "-Xmx"@ + decimal(self@.memory) + "M"@,
            arguments@[1]@ == "-jar"@,
            arguments@[2]@ == self@.resources.server,
            arguments@[3]@ == "nogui"@,
    {
        let mut memory = "-Xmx".to_owned();
        push_decimal(&mut memory, self.memory);
        memory.append("M");

        let mut arguments: Vec<String> = Vec::new();
        arguments.push(memory);
        arguments.push("-jar".to_owned());
        arguments.push(self.resources.server.clone());
        arguments.push("nogui".to_owned());
        arguments
    }
}

/// A file that specifies every option, with a radius that is allowed, is followed
/// to the letter. So is a file that the default configuration was written to.
pub proof fn law_specified_options_are_kept(option: OptionConfig)
    requires
        option.radius is Some,
        option.radius->0 <= Config::MAX_RADIUS,
        option.memory is Some,
        option.resources is Some,
        option.resources->0.java is Some,
        option.resources->0.server is Some,
    ensures
        resolved(option) == (ConfigModel {
            radius: option.radius->0 as nat,
            memory: option.memory->0 as nat,
            resources: ResourcesModel {
                java: option.resources->0.java->0@,
                server: option.resources->0.server->0@,
            },
        }),
        notices_for(option).len() == 0,
{
}

/// A file that specifies nothing stands for the default configuration.
pub proof fn law_unspecified_options_are_defaults(option: OptionConfig)
    requires
        option.radius is None,
        option.memory is None,
        option.resources is None,
    ensures
        resolved(option) == default_config(),
{
}

/// The radius never exceeds the maximum.
pub proof fn law_radius_is_limited(option: OptionConfig)
    ensures
        resolved(option).radius <= Config::MAX_RADIUS,
{
}

/// A radius that is specified and not above 29999984 is kept, and else the radius is
/// 5000, whatever the other options are.
pub proof fn law_radius_is_resolved_on_its_own(option: OptionConfig)
    ensures
        option.radius matches Some(radius) ==> (radius <= 29999984 ==> resolved(option).radius
            == radius),
        option.radius matches Some(radius) ==> (radius > 29999984 ==> resolved(option).radius
            == 5000),
        option.radius is None ==> resolved(option).radius == 5000,
{
}

/// A memory that is specified is kept, and else the memory is 2048, whatever the other
/// options are.
pub proof fn law_memory_is_resolved_on_its_own(option: OptionConfig)
    ensures
        option.memory matches Some(memory) ==> resolved(option).memory == memory,
        option.memory is None ==> resolved(option).memory == 2048,
{
}

/// A Java command that is specified is kept, and else it is `java`, whatever the other
/// options are.
pub proof fn law_java_is_resolved_on_its_own(option: OptionConfig)
    ensures
        option.resources matches Some(r) ==> (r.java matches Some(java) ==> resolved(
            option,
        ).resources.java == java@),
        option.resources matches Some(r) ==> (r.java is None ==> resolved(option).resources.java
            == "java"@),
        option.resources is None ==> resolved(option).resources.java == "java"@,
{
}

/// A server JAR that is specified is kept, and else it is `./server.jar`, whatever the
/// other options are.
pub proof fn law_server_is_resolved_on_its_own(option: OptionConfig)
    ensures
        option.resources matches Some(r) ==> (r.server matches Some(server) ==> resolved(
            option,
        ).resources.server == server@),
        option.resources matches Some(r) ==> (r.server is None ==> resolved(
            option,
        ).resources.server == "./server.jar"@),
        option.resources is None ==> resolved(option).resources.server == "./server.jar"@,
{
}

/// Each thing is told about exactly if it is so, and told once.
pub proof fn law_notices_tell_what_is_so(option: OptionConfig)
    ensures
        notices_for(option).no_duplicates(),
        forall|n: ConfigNotice| #[trigger]
            notices_for(option).contains(n) <==> match n {
                ConfigNotice::RadiusTooLarge { radius } => option.radius == Some(radius) && radius
                    > 29999984,
                ConfigNotice::RadiusUnspecified => option.radius is None,
                ConfigNotice::MemoryUnspecified => option.memory is None,
                ConfigNotice::ServerUnspecified => option.resources matches Some(r)
                    && r.server is None,
                ConfigNotice::JavaUnspecified => option.resources matches Some(r) && r.java is None,
                ConfigNotice::ResourcesUnspecified => option.resources is None,
            },
{
    let a = match option.radius {
        Some(radius) => notice_if(
            radius > Config::MAX_RADIUS,
            ConfigNotice::RadiusTooLarge { radius },
        ),
        None => seq![ConfigNotice::RadiusUnspecified],
    };
    let b = notice_if(option.memory is None, ConfigNotice::MemoryUnspecified);
    let c = match option.resources {
        Some(r) => notice_if(r.server is None, ConfigNotice::ServerUnspecified),
        None => seq![ConfigNotice::ResourcesUnspecified],
    };
    let d = match option.resources {
        Some(r) => notice_if(r.java is None, ConfigNotice::JavaUnspecified),
        None => seq![],
    };
    let all = a + b + c + d;
    assert(notices_for(option) == all);
    assert forall|n: ConfigNotice| #[trigger] all.contains(n) <==> a.contains(n) || b.contains(n)
        || c.contains(n) || d.contains(n) by {
        if a.contains(n) {
            let i = choose|i: int| 0 <= i < a.len() && a[i] == n;
            assert(all[i] == n);
        }
        if b.contains(n) {
            let i = choose|i: int| 0 <= i < b.len() && b[i] == n;
            assert(all[a.len() + i] == n);
        }
        if c.contains(n) {
            let i = choose|i: int| 0 <= i < c.len() && c[i] == n;
            assert(all[a.len() + b.len() + i] == n);
        }
        if d.contains(n) {
            let i = choose|i: int| 0 <= i < d.len() && d[i] == n;
            assert(all[a.len() + b.len() + c.len() + i] == n);
        }
    }
    assert forall|n: ConfigNotice, m: ConfigNotice| #[trigger]
        notice_if(true, m).contains(n) <==> n == m by {
        assert(notice_if(true, m)[0] == m);
    }
    assert forall|n: ConfigNotice, m: ConfigNotice| !#[trigger]
        notice_if(false, m).contains(n) by {}
    assert(seq![ConfigNotice::RadiusUnspecified] == notice_if(
        true,
        ConfigNotice::RadiusUnspecified,
    ));
    assert(seq![ConfigNotice::ResourcesUnspecified] == notice_if(
        true,
        ConfigNotice::ResourcesUnspecified,
    ));
}

/// A configuration stands for the values of its fields.
pub proof fn law_configuration_stands_for_its_fields(config: Config)
    ensures
        config@.radius == config.radius,
        config@.memory == config.memory,
        config@.resources.java == config.resources.java@,
        config@.resources.server == config.resources.server@,
{
}

/// The default configuration.
pub proof fn law_default_values()
    ensures
        default_config().radius == 5000,
        default_config().memory == 2048,
        default_config().resources.java == "java"@,
        default_config().resources.server == "./server.jar"@,
{
}

/// The place of a notice: those about the radius come first, then the one about the
/// memory, then those about the resources, and of these the one about Java last.
pub open spec fn place(notice: ConfigNotice) -> int {
    match notice {
        ConfigNotice::RadiusTooLarge { radius: _ } => 0,
        ConfigNotice::RadiusUnspecified => 0,
        ConfigNotice::MemoryUnspecified => 1,
        ConfigNotice::ServerUnspecified => 2,
        ConfigNotice::JavaUnspecified => 3,
        ConfigNotice::ResourcesUnspecified => 2,
    }
}

/// Notices come in the order of their places.
pub proof fn law_notices_are_in_order(option: OptionConfig)
    ensures
        forall|i: int, j: int|
            0 <= i < j < notices_for(option).len() ==> place(#[trigger] notices_for(option)[i])
                < place(#[trigger] notices_for(option)[j]),
{
}

/// Two files that agree on the radius give the same radius, two that agree on the
/// memory give the same memory, and two that agree on the resources give the same
/// resources, whatever else they hold.
pub proof fn law_options_do_not_interfere(
    a: OptionConfig,
    b: OptionConfig,
    ra: (Config, Vec<ConfigNotice>),
    rb: (Config, Vec<ConfigNotice>),
)
    requires
        call_ensures(Config::resolve, (a,), ra),
        call_ensures(Config::resolve, (b,), rb),
    ensures
        a.radius == b.radius ==> ra.0.radius == rb.0.radius,
        a.memory == b.memory ==> ra.0.memory == rb.0.memory,
        a.resources == b.resources ==> ra.0.resources@ == rb.0.resources@,
        a.radius matches Some(radius) ==> (radius <= 29999984 ==> ra.0.radius == radius),
        a.memory matches Some(memory) ==> ra.0.memory == memory,
        ra.1@ == notices_for(a),
{
}

/// A file that is not understood, or is not there, stands for the default
/// configuration; one is written exactly if there is none; and no radius is above
/// 29999984.
pub proof fn law_defaults_stand_for_a_missing_file(file: ConfigFile, loaded: LoadedConfig)
    requires
        call_ensures(Config::load, (file,), loaded),
    ensures
        !(file is Parsed) ==> {
            &&& loaded.config.radius == 5000
            &&& loaded.config.memory == 2048
            &&& loaded.config.resources.java@ == "java"@
            &&& loaded.config.resources.server@ == "./server.jar"@
            &&& loaded.notices@.len() == 0
        },
        file matches ConfigFile::Parsed(option) ==> {
            &&& loaded.notices@ == notices_for(option)
            &&& option.radius matches Some(radius) ==> loaded.config.radius == (if radius
                <= 29999984 {
                radius
            } else {
                5000
            })
            &&& option.memory matches Some(memory) ==> loaded.config.memory == memory
            &&& option.resources matches Some(resources) ==> {
                &&& resources.java matches Some(java) ==> loaded.config.resources.java@ == java@
                &&& resources.server matches Some(server) ==> loaded.config.resources.server@
                    == server@
            }
        },
        loaded.write_file <==> file is Missing,
        loaded.config.radius <= 29999984,
{
}

/// The server is run from its JAR without a window, with the configured memory in
/// megabytes.
pub proof fn law_server_gets_the_configured_memory(config: Config, arguments: Vec<String>)
    requires
        call_ensures(Config::server_arguments, (&config,), arguments),
    ensures
        arguments@.len() == 4,
        ({
            let n = arguments@[0]@.len();
            let number = arguments@[0]@.subrange(4, n - 1);
            &&& n > 5
            &&& arguments@[0]@.take(4) == "-Xmx"@
            &&& arguments@[0]@[n - 1] == 'M'
            &&& is_numeral(number)
            &&& value_of(number) == config.memory
        }),
        arguments@[1]@ == "-jar"@,
        arguments@[2]@ == config.resources.server@,
        arguments@[3]@ == "nogui"@,
{
    reveal_strlit("-Xmx");
    reveal_strlit("M");
    law_decimal_stands_for_its_number(config@.memory);
    let n = arguments@[0]@.len();
    assert(arguments@[0]@.subrange(4, n - 1) == decimal(config@.memory));
    assert(arguments@[0]@.take(4) == "-Xmx"@);
}

} // verus!
