//! The platform an event was observed on.
use vstd::prelude::*;
use crate::utils::text::same_text;

verus! {

/// Operating system or environment that produced an event.
#[derive(Clone, Copy, Debug, PartialEq, Eq, Structural)]
pub enum Platform {
    Mac,
    Windows,
    Linux,
    Ios,
    Android,
    Unknown,
    Web,
}

impl Platform {
    /// The platform a stored name stands for. Names other than the five
    /// operating systems read as `Unknown`.
    pub open spec fn spec_parse(name: Seq<char>) -> Platform {
        if name == "MAC"@ {
            Platform::Mac
        } else if name == "WINDOWS"@ {
            Platform::Windows
        } else if name == "LINUX"@ {
            Platform::Linux
        } else if name == "IOS"@ {
            Platform::Ios
        } else if name == "ANDROID"@ {
            Platform::Android
        } else {
            Platform::Unknown
        }
    }

    /// The upper-case name under which the platform is stored.
    pub open spec fn spec_name(self) -> Seq<char> {
        match self {
            Platform::Mac => "MAC"@,
            Platform::Windows => "WINDOWS"@,
            Platform::Linux => "LINUX"@,
            Platform::Ios => "IOS"@,
            Platform::Android => "ANDROID"@,
            Platform::Unknown => "UNKNOWN"@,
            Platform::Web => "WEB"@,
        }
    }

    /// Reads a stored platform name.
    pub fn parse(name: &str) -> (platform: Platform)
        ensures
            platform == Platform::spec_parse(name@),
    {
        if same_text(name, "MAC") {
            Platform::Mac
        } else if same_text(name, "WINDOWS") {
            Platform::Windows
        } else if same_text(name, "LINUX") {
            Platform::Linux
        } else if same_text(name, "IOS") {
            Platform::Ios
        } else if same_text(name, "ANDROID") {
            Platform::Android
        } else {
            Platform::Unknown
        }
    }

    /// The name under which the platform is stored.
    pub fn name(&self) -> (name: &'static str)
        ensures
            name@ == self.spec_name(),
    {
        match self {
            Platform::Mac => "MAC",
            Platform::Windows => "WINDOWS",
            Platform::Linux => "LINUX",
            Platform::Ios => "IOS",
            Platform::Android => "ANDROID",
            Platform::Unknown => "UNKNOWN",
            Platform::Web => "WEB",
        }
    }
}

impl From<String> for Platform {
    fn from(s: String) -> (platform: Platform) {
        Platform::parse(s.as_str())
    }
}

impl vstd::std_specs::convert::FromSpecImpl<String> for Platform {
    open spec fn obeys_from_spec() -> bool {
        true
    }

    open spec fn from_spec(s: String) -> Platform {
        Platform::spec_parse(s@)
    }
}

} // verus!
