use vstd::prelude::*;

verus! {

/// Static description of the host process: platform and architecture as
/// the runtime reports them, and the fixed version label of this build.
pub struct SystemInfo {
    pub platform: String,
    pub arch: String,
    pub version: String,
}

/// Builds the system report from the platform and architecture names the
/// caller read from the runtime. The version label is fixed.
pub fn get_system_info(platform: String, arch: String) -> (r: SystemInfo)
    ensures
        r.platform@ == platform@,
        r.arch@ == arch@,
        r.version@ == "0.1.0-alpha"@,
{
    SystemInfo { platform, arch, version: "0.1.0-alpha".to_owned() }
}

impl SystemInfo {
    /// The report as ordered key/value pairs, as the front end receives it.
    pub fn pairs(&self) -> (r: Vec<(String, String)>)
        ensures
            r@.len() == 3,
            r@[0].0@ == "platform"@ && r@[0].1@ == self.platform@,
            r@[1].0@ == "arch"@ && r@[1].1@ == self.arch@,
            r@[2].0@ == "version"@ && r@[2].1@ == self.version@,
    {
        let mut v: Vec<(String, String)> = Vec::new();
        v.push(("platform".to_owned(), self.platform.clone()));
        v.push(("arch".to_owned(), self.arch.clone()));
        v.push(("version".to_owned(), self.version.clone()));
        v
    }
}

/// Law: the system report is a function of its inputs alone. Two results
/// for view-equal inputs agree field for field.
pub proof fn lemma_system_info_consistent(
    p1: String,
    a1: String,
    p2: String,
    a2: String,
    r1: SystemInfo,
    r2: SystemInfo,
)
    requires
        call_ensures(get_system_info, (p1, a1), r1),
        call_ensures(get_system_info, (p2, a2), r2),
        p1@ == p2@,
        a1@ == a2@,
    ensures
        r1.platform@ == r2.platform@,
        r1.arch@ == r2.arch@,
        r1.version@ == r2.version@,
{
}

} // verus!
