use vstd::prelude::*;

verus! {

/// The model of a [`Platform`]: an operating system and, where it is given, an
/// architecture.
pub struct PlatformView {
    pub os: Seq<char>,
    pub arch: Option<Seq<char>>,
}

impl PlatformView {
    /// A filter platform covers a concrete platform if it names no
    /// architecture and the same operating system, or if the two are equal.
    pub open spec fn is_superset_of(self, other: PlatformView) -> bool {
        (self.arch is None && self.os == other.os) || self == other
    }
}

/// An operating system with an optional architecture.
#[derive(Debug, PartialEq, Eq)]
pub struct Platform {
    os: String,
    arch: Option<String>,
}

impl DeepView for Platform {
    type V = PlatformView;

    closed spec fn deep_view(&self) -> PlatformView {
        PlatformView { os: self.os@, arch: self.arch.deep_view() }
    }
}

impl View for Platform {
    type V = PlatformView;

    open spec fn view(&self) -> PlatformView {
        self.deep_view()
    }
}

impl Clone for Platform {
    fn clone(&self) -> (copy: Self)
        ensures
            copy@ == self@,
    {
        let arch = match &self.arch {
            Some(arch) => Some(arch.clone()),
            None => None,
        };
        Platform { os: self.os.clone(), arch }
    }
}

impl Platform {
    /// A platform with both fields set.
    pub fn new(operating_system: &str, architecture: &str) -> (platform: Self)
        ensures
            platform@ == (PlatformView { os: operating_system@, arch: Some(architecture@) }),
    {
        Platform {
            os: String::from_str(operating_system),
            arch: Some(String::from_str(architecture)),
        }
    }

    /// A platform that names an operating system and no architecture.
    pub fn any_architecture(operating_system: &str) -> (platform: Self)
        ensures
            platform@ == (PlatformView { os: operating_system@, arch: None }),
    {
        Platform { os: String::from_str(operating_system), arch: None }
    }

    pub fn get_os(&self) -> (os: &String)
        ensures
            os@ == self@.os,
    {
        &self.os
    }

    pub fn get_arch(&self) -> (arch: &Option<String>)
        ensures
            arch.deep_view() == self@.arch,
    {
        &self.arch
    }

    /// Whether this platform, read as a filter, covers `other`.
    pub fn is_superset_of(&self, other: &Platform) -> (superset: bool)
        ensures
            superset == self@.is_superset_of(other@),
    {
        let same_os = self.os == other.os;
        match &self.arch {
            None => same_os,
            Some(arch) => match &other.arch {
                Some(other_arch) => same_os && *arch == *other_arch,
                None => false,
            },
        }
    }
}

/// A copy of a list of platforms.
pub fn clone_platforms(platforms: &[Platform]) -> (copy: Vec<Platform>)
    ensures
        copy.deep_view() == platforms.deep_view(),
{
    let mut copy: Vec<Platform> = Vec::new();
    let mut i: usize = 0;
    while i < platforms.len()
        invariant
            i <= platforms.len(),
            copy.deep_view() =~= platforms.deep_view().take(i as int),
        decreases platforms.len() - i,
    {
        let ghost before = copy.deep_view();
        let platform = platforms[i].clone();
        copy.push(platform);
        assert(copy.deep_view() =~= before.push(platform@));
        i += 1;
    }
    assert(platforms.deep_view().take(i as int) =~= platforms.deep_view());
    copy
}

} // verus!
