//! What the server reports about itself: build, configuration, status,
//! modules, log channels, global variables and configuration objects.
use vstd::prelude::*;

use crate::json::{Json, JsonValue};
use crate::schema::{FromJson, JsonNumber, is_object, optional, optional_is, read_optional, read_required, required, required_is};
use crate::time::Timestamp;

verus! {

/// Asterisk system information
#[derive(Debug, PartialEq)]
pub struct AsteriskInfo {
    /// Info about how Asterisk was built,
    pub build: Option<BuildInfo>,
    /// Info about the system running Asterisk,
    pub system: Option<SystemInfo>,
    /// Info about Asterisk configuration,
    pub config: Option<ConfigInfo>,
    /// Info about Asterisk status
    pub status: Option<StatusInfo>,
}

impl FromJson for AsteriskInfo {
    open spec fn accepts(j: Json) -> bool {
        &&& j is Object
        &&& optional::<BuildInfo>(j, "build"@)
        &&& optional::<SystemInfo>(j, "system"@)
        &&& optional::<ConfigInfo>(j, "config"@)
        &&& optional::<StatusInfo>(j, "status"@)
    }

    open spec fn decodes(j: Json, v: AsteriskInfo) -> bool {
        &&& j is Object
        &&& optional_is::<BuildInfo>(j, "build"@, v.build)
        &&& optional_is::<SystemInfo>(j, "system"@, v.system)
        &&& optional_is::<ConfigInfo>(j, "config"@, v.config)
        &&& optional_is::<StatusInfo>(j, "status"@, v.status)
    }

    fn from_json(j: &JsonValue) -> (r: Option<AsteriskInfo>) {
        if !is_object(j) {
            return None;
        }
        let build = read_optional::<BuildInfo>(j, "build")?;
        let system = read_optional::<SystemInfo>(j, "system")?;
        let config = read_optional::<ConfigInfo>(j, "config")?;
        let status = read_optional::<StatusInfo>(j, "status")?;
        Some(AsteriskInfo {
            build,
            system,
            config,
            status,
        })
    }
}

/// Asterisk ping information
#[derive(Debug, PartialEq)]
pub struct AsteriskPing {
    /// Asterisk id info
    pub asterisk_id: String,
    /// Always string value is pong
    pub ping: String,
    /// The timestamp string of request received time
    pub timestamp: Timestamp,
}

impl FromJson for AsteriskPing {
    open spec fn accepts(j: Json) -> bool {
        &&& j is Object
        &&& required::<String>(j, "asterisk_id"@)
        &&& required::<String>(j, "ping"@)
        &&& required::<Timestamp>(j, "timestamp"@)
    }

    open spec fn decodes(j: Json, v: AsteriskPing) -> bool {
        &&& j is Object
        &&& required_is::<String>(j, "asterisk_id"@, v.asterisk_id)
        &&& required_is::<String>(j, "ping"@, v.ping)
        &&& required_is::<Timestamp>(j, "timestamp"@, v.timestamp)
    }

    fn from_json(j: &JsonValue) -> (r: Option<AsteriskPing>) {
        if !is_object(j) {
            return None;
        }
        let asterisk_id = read_required::<String>(j, "asterisk_id")?;
        let ping = read_required::<String>(j, "ping")?;
        let timestamp = read_required::<Timestamp>(j, "timestamp")?;
        Some(AsteriskPing {
            asterisk_id,
            ping,
            timestamp,
        })
    }
}

/// Info about how Asterisk was built
#[derive(Debug, PartialEq)]
pub struct BuildInfo {
    /// OS Asterisk was built on.
    pub os: String,
    /// Kernel version Asterisk was built on.
    pub kernel: String,
    /// Compile time options, or empty string if default.
    pub options: String,
    /// Machine architecture (x86_64, i686, ppc, etc.)
    pub machine: String,
    /// Date and time when Asterisk was built.
    pub date: String,
    /// Username that build Asterisk
    pub user: String,
}

impl FromJson for BuildInfo {
    open spec fn accepts(j: Json) -> bool {
        &&& j is Object
        &&& required::<String>(j, "os"@)
        &&& required::<String>(j, "kernel"@)
        &&& required::<String>(j, "options"@)
        &&& required::<String>(j, "machine"@)
        &&& required::<String>(j, "date"@)
        &&& required::<String>(j, "user"@)
    }

    open spec fn decodes(j: Json, v: BuildInfo) -> bool {
        &&& j is Object
        &&& required_is::<String>(j, "os"@, v.os)
        &&& required_is::<String>(j, "kernel"@, v.kernel)
        &&& required_is::<String>(j, "options"@, v.options)
        &&& required_is::<String>(j, "machine"@, v.machine)
        &&& required_is::<String>(j, "date"@, v.date)
        &&& required_is::<String>(j, "user"@, v.user)
    }

    fn from_json(j: &JsonValue) -> (r: Option<BuildInfo>) {
        if !is_object(j) {
            return None;
        }
        let os = read_required::<String>(j, "os")?;
        let kernel = read_required::<String>(j, "kernel")?;
        let options = read_required::<String>(j, "options")?;
        let machine = read_required::<String>(j, "machine")?;
        let date = read_required::<String>(j, "date")?;
        let user = read_required::<String>(j, "user")?;
        Some(BuildInfo {
            os,
            kernel,
            options,
            machine,
            date,
            user,
        })
    }
}

/// Info about Asterisk configuration
#[derive(Debug, PartialEq)]
pub struct ConfigInfo {
    /// Asterisk system name.
    pub name: String,
    /// Default language for media playback.
    pub default_language: String,
    /// Maximum number of simultaneous channels.,
    pub max_channels: Option<u32>,
    /// Maximum number of open file handles (files, sockets).,
    pub max_open_files: Option<u32>,
    /// Maximum load avg on system.,
    pub max_load: Option<JsonNumber>,
    /// Effective user/group id for running Asterisk.
    pub set_id: Option<SetId>,
}

impl FromJson for ConfigInfo {
    open spec fn accepts(j: Json) -> bool {
        &&& j is Object
        &&& required::<String>(j, "name"@)
        &&& required::<String>(j, "default_language"@)
        &&& optional::<u32>(j, "max_channels"@)
        &&& optional::<u32>(j, "max_open_files"@)
        &&& optional::<JsonNumber>(j, "max_load"@)
        &&& optional::<SetId>(j, "set_id"@)
    }

    open spec fn decodes(j: Json, v: ConfigInfo) -> bool {
        &&& j is Object
        &&& required_is::<String>(j, "name"@, v.name)
        &&& required_is::<String>(j, "default_language"@, v.default_language)
        &&& optional_is::<u32>(j, "max_channels"@, v.max_channels)
        &&& optional_is::<u32>(j, "max_open_files"@, v.max_open_files)
        &&& optional_is::<JsonNumber>(j, "max_load"@, v.max_load)
        &&& optional_is::<SetId>(j, "set_id"@, v.set_id)
    }

    fn from_json(j: &JsonValue) -> (r: Option<ConfigInfo>) {
        if !is_object(j) {
            return None;
        }
        let name = read_required::<String>(j, "name")?;
        let default_language = read_required::<String>(j, "default_language")?;
        let max_channels = read_optional::<u32>(j, "max_channels")?;
        let max_open_files = read_optional::<u32>(j, "max_open_files")?;
        let max_load = read_optional::<JsonNumber>(j, "max_load")?;
        let set_id = read_optional::<SetId>(j, "set_id")?;
        Some(ConfigInfo {
            name,
            default_language,
            max_channels,
            max_open_files,
            max_load,
            set_id,
        })
    }
}

/// Effective user/group id
#[derive(Debug, PartialEq)]
pub struct SetId {
    /// Effective user id.
    pub user: String,
    /// Effective group id.
    pub group: String,
}

impl FromJson for SetId {
    open spec fn accepts(j: Json) -> bool {
        &&& j is Object
        &&& required::<String>(j, "user"@)
        &&& required::<String>(j, "group"@)
    }

    open spec fn decodes(j: Json, v: SetId) -> bool {
        &&& j is Object
        &&& required_is::<String>(j, "user"@, v.user)
        &&& required_is::<String>(j, "group"@, v.group)
    }

    fn from_json(j: &JsonValue) -> (r: Option<SetId>) {
        if !is_object(j) {
            return None;
        }
        let user = read_required::<String>(j, "user")?;
        let group = read_required::<String>(j, "group")?;
        Some(SetId {
            user,
            group,
        })
    }
}

/// Info about Asterisk status
#[derive(Debug, PartialEq)]
pub struct StatusInfo {
    /// Time when Asterisk was started.
    pub startup_time: Timestamp,
    /// Time when Asterisk was last reloaded.
    pub last_reload_time: Timestamp,
}

impl FromJson for StatusInfo {
    open spec fn accepts(j: Json) -> bool {
        &&& j is Object
        &&& required::<Timestamp>(j, "startup_time"@)
        &&& required::<Timestamp>(j, "last_reload_time"@)
    }

    open spec fn decodes(j: Json, v: StatusInfo) -> bool {
        &&& j is Object
        &&& required_is::<Timestamp>(j, "startup_time"@, v.startup_time)
        &&& required_is::<Timestamp>(j, "last_reload_time"@, v.last_reload_time)
    }

    fn from_json(j: &JsonValue) -> (r: Option<StatusInfo>) {
        if !is_object(j) {
            return None;
        }
        let startup_time = read_required::<Timestamp>(j, "startup_time")?;
        let last_reload_time = read_required::<Timestamp>(j, "last_reload_time")?;
        Some(StatusInfo {
            startup_time,
            last_reload_time,
        })
    }
}

/// Info about Asterisk
#[derive(Debug, PartialEq)]
pub struct SystemInfo {
    /// Asterisk version.
    pub version: String,
    pub entity_id: String,
}

impl FromJson for SystemInfo {
    open spec fn accepts(j: Json) -> bool {
        &&& j is Object
        &&& required::<String>(j, "version"@)
        &&& required::<String>(j, "entity_id"@)
    }

    open spec fn decodes(j: Json, v: SystemInfo) -> bool {
        &&& j is Object
        &&& required_is::<String>(j, "version"@, v.version)
        &&& required_is::<String>(j, "entity_id"@, v.entity_id)
    }

    fn from_json(j: &JsonValue) -> (r: Option<SystemInfo>) {
        if !is_object(j) {
            return None;
        }
        let version = read_required::<String>(j, "version")?;
        let entity_id = read_required::<String>(j, "entity_id")?;
        Some(SystemInfo {
            version,
            entity_id,
        })
    }
}

/// Details of an Asterisk module
#[derive(Debug, PartialEq)]
pub struct Module {
    /// The name of this module
    pub name: String,
    /// The description of this module
    pub description: String,
    pub use_count: u32,
    /// The running status of this module
    pub status: String,
    /// The support state of this module
    pub support_level: String,
}

impl FromJson for Module {
    open spec fn accepts(j: Json) -> bool {
        &&& j is Object
        &&& required::<String>(j, "name"@)
        &&& required::<String>(j, "description"@)
        &&& required::<u32>(j, "use_count"@)
        &&& required::<String>(j, "status"@)
        &&& required::<String>(j, "support_level"@)
    }

    open spec fn decodes(j: Json, v: Module) -> bool {
        &&& j is Object
        &&& required_is::<String>(j, "name"@, v.name)
        &&& required_is::<String>(j, "description"@, v.description)
        &&& required_is::<u32>(j, "use_count"@, v.use_count)
        &&& required_is::<String>(j, "status"@, v.status)
        &&& required_is::<String>(j, "support_level"@, v.support_level)
    }

    fn from_json(j: &JsonValue) -> (r: Option<Module>) {
        if !is_object(j) {
            return None;
        }
        let name = read_required::<String>(j, "name")?;
        let description = read_required::<String>(j, "description")?;
        let use_count = read_required::<u32>(j, "use_count")?;
        let status = read_required::<String>(j, "status")?;
        let support_level = read_required::<String>(j, "support_level")?;
        Some(Module {
            name,
            description,
            use_count,
            status,
            support_level,
        })
    }
}

/// The value of a channel variable
#[derive(Debug, PartialEq)]
pub struct Variable {
    /// The value of the variable requested
    pub value: String,
}

impl FromJson for Variable {
    open spec fn accepts(j: Json) -> bool {
        &&& j is Object
        &&& required::<String>(j, "value"@)
    }

    open spec fn decodes(j: Json, v: Variable) -> bool {
        &&& j is Object
        &&& required_is::<String>(j, "value"@, v.value)
    }

    fn from_json(j: &JsonValue) -> (r: Option<Variable>) {
        if !is_object(j) {
            return None;
        }
        let value = read_required::<String>(j, "value")?;
        Some(Variable {
            value,
        })
    }
}

/// Details of an Asterisk log channel.
#[derive(Debug, PartialEq)]
pub struct LogChannel {
    /// The log channel path.
    pub channel: String,
    /// Types of logs for the log channel.
    pub kind: String,
    /// Whether or not a log type is enabled.
    pub status: String,
    /// The various log levels.
    pub configuration: String,
}

impl FromJson for LogChannel {
    open spec fn accepts(j: Json) -> bool {
        &&& j is Object
        &&& required::<String>(j, "channel"@)
        &&& required::<String>(j, "type"@)
        &&& required::<String>(j, "status"@)
        &&& required::<String>(j, "configuration"@)
    }

    open spec fn decodes(j: Json, v: LogChannel) -> bool {
        &&& j is Object
        &&& required_is::<String>(j, "channel"@, v.channel)
        &&& required_is::<String>(j, "type"@, v.kind)
        &&& required_is::<String>(j, "status"@, v.status)
        &&& required_is::<String>(j, "configuration"@, v.configuration)
    }

    fn from_json(j: &JsonValue) -> (r: Option<LogChannel>) {
        if !is_object(j) {
            return None;
        }
        let channel = read_required::<String>(j, "channel")?;
        let kind = read_required::<String>(j, "type")?;
        let status = read_required::<String>(j, "status")?;
        let configuration = read_required::<String>(j, "configuration")?;
        Some(LogChannel {
            channel,
            kind,
            status,
            configuration,
        })
    }
}

/// A key/value pair that makes up part of a configuration object.
#[derive(Debug, PartialEq)]
pub struct ConfigTuple {
    /// A configuration object attribute.
    pub attribute: String,
    /// The value for the attribute.
    pub value: String,
}

impl FromJson for ConfigTuple {
    open spec fn accepts(j: Json) -> bool {
        &&& j is Object
        &&& required::<String>(j, "attribute"@)
        &&& required::<String>(j, "value"@)
    }

    open spec fn decodes(j: Json, v: ConfigTuple) -> bool {
        &&& j is Object
        &&& required_is::<String>(j, "attribute"@, v.attribute)
        &&& required_is::<String>(j, "value"@, v.value)
    }

    fn from_json(j: &JsonValue) -> (r: Option<ConfigTuple>) {
        if !is_object(j) {
            return None;
        }
        let attribute = read_required::<String>(j, "attribute")?;
        let value = read_required::<String>(j, "value")?;
        Some(ConfigTuple {
            attribute,
            value,
        })
    }
}
} // verus!
