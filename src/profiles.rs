use vstd::prelude::*;
use vstd::string::*;
use crate::context::{clone_profiles, profile_names};
use crate::service::{AwsProfile, clone_opt, opt_view};
use crate::text::str_eq;

verus! {

/// One section of an INI file: its name and its keys with their optional values.
#[derive(Debug)]
pub struct IniSection {
    pub name: String,
    pub entries: Vec<(String, Option<String>)>,
}

/// The value of `key` in a section: the first entry with that key, if it has a value.
pub open spec fn entry_value(entries: Seq<(String, Option<String>)>, key: Seq<char>) -> Option<Seq<char>>
    decreases entries.len(),
{
    if entries.len() == 0 {
        None
    } else if entries[0].0@ == key {
        opt_view(entries[0].1)
    } else {
        entry_value(entries.drop_first(), key)
    }
}

/// The value of `key` among the entries of a section.
pub fn lookup(entries: &Vec<(String, Option<String>)>, key: &str) -> (r: Option<String>)
    ensures
        opt_view(r) == entry_value(entries@, key@),
{
    let mut i: usize = 0;
    assert(entries@.skip(0) =~= entries@);
    while i < entries.len()
        invariant
            i <= entries@.len(),
            entry_value(entries@.skip(i as int), key@) == entry_value(entries@, key@),
        decreases entries.len() - i,
    {
        assert(entries@.skip(i as int).drop_first() =~= entries@.skip(i + 1));
        assert(entries@.skip(i as int)[0] == entries@[i as int]);
        if str_eq(entries[i].0.as_str(), key) {
            return clone_opt(&entries[i].1);
        }
        i = i + 1;
    }
    assert(entries@.skip(i as int).len() == 0);
    None
}

/// The profile name a config-file section stands for: `default`, or the rest of
/// a `profile <name>` section; other sections stand for none.
pub open spec fn config_profile_name(section: Seq<char>) -> Option<Seq<char>> {
    if section == "default"@ {
        Some("default"@)
    } else if section.len() >= 8 && section.take(8) == "profile "@ {
        Some(section.skip(8))
    } else {
        None
    }
}

/// Names of the profiles are pairwise distinct.
pub open spec fn unique_names(names: Seq<Seq<char>>) -> bool {
    forall|i: int, j: int| 0 <= i < names.len() && 0 <= j < names.len() && i != j ==> names[i] != names[j]
}

/// Profiles known from the credential files, one per name, in order of first
/// appearance.
#[derive(Debug)]
pub struct ProfileManager {
    pub profiles: Vec<AwsProfile>,
}

impl ProfileManager {
    pub open spec fn wf(&self) -> bool {
        unique_names(profile_names(self.profiles@))
    }

    /// A manager with no profiles.
    pub fn new() -> (r: Self)
        ensures
            r.wf(),
            r.profiles@.len() == 0,
    {
        ProfileManager { profiles: Vec::new() }
    }

    /// Position of the profile called `name`, if any.
    fn position(&self, name: &str) -> (r: Option<usize>)
        ensures
            match r {
                Some(i) => i < self.profiles@.len() && profile_names(self.profiles@)[i as int] == name@,
                None => !profile_names(self.profiles@).contains(name@),
            },
    {
        let mut i: usize = 0;
        while i < self.profiles.len()
            invariant
                i <= self.profiles@.len(),
                forall|j: int| 0 <= j < i ==> profile_names(self.profiles@)[j] != name@,
            decreases self.profiles.len() - i,
        {
            if str_eq(self.profiles[i].name.as_str(), name) {
                return Some(i);
            }
            i = i + 1;
        }
        None
    }

    /// Replaces the profile of the same name, or appends it.
    fn put(&mut self, profile: AwsProfile)
        requires
            old(self).wf(),
        ensures
            final(self).wf(),
            profile_names(old(self).profiles@).contains(profile.name@) ==> profile_names(final(self).profiles@)
                == profile_names(old(self).profiles@),
            !profile_names(old(self).profiles@).contains(profile.name@) ==> profile_names(final(self).profiles@)
                == profile_names(old(self).profiles@).push(profile.name@),
            exists|i: int| 0 <= i < final(self).profiles@.len() && final(self).profiles@[i] == profile,
    {
        match self.position(profile.name.as_str()) {
            Some(i) => {
                let ghost p = profile;
                self.profiles.set(i, profile);
                assert(profile_names(self.profiles@) =~= profile_names(old(self).profiles@));
                assert(self.profiles@[i as int] == p);
            },
            None => {
                let ghost p = profile;
                self.profiles.push(profile);
                assert(profile_names(self.profiles@) =~= profile_names(old(self).profiles@).push(p.name@));
                assert(self.profiles@[self.profiles@.len() - 1] == p);
            },
        }
    }

    /// Reads a section of the credentials file: a section with both an access
    /// key and a secret becomes (or replaces) the profile of its name.
    pub fn add_credentials_section(&mut self, section: &IniSection)
        requires
            old(self).wf(),
        ensures
            final(self).wf(),
            entry_value(section.entries@, "aws_access_key_id"@) is Some && entry_value(
                section.entries@,
                "aws_secret_access_key"@,
            ) is Some ==> exists|i: int|
                0 <= i < final(self).profiles@.len() && {
                    let p = #[trigger] final(self).profiles@[i];
                    &&& p.name@ == section.name@
                    &&& opt_view(p.access_key_id) == entry_value(section.entries@, "aws_access_key_id"@)
                    &&& opt_view(p.secret_access_key) == entry_value(section.entries@, "aws_secret_access_key"@)
                    &&& opt_view(p.session_token) == entry_value(section.entries@, "aws_session_token"@)
                    &&& opt_view(p.region) == entry_value(section.entries@, "region"@)
                },
            !(entry_value(section.entries@, "aws_access_key_id"@) is Some && entry_value(
                section.entries@,
                "aws_secret_access_key"@,
            ) is Some) ==> final(self).profiles == old(self).profiles,
    {
        let key = lookup(&section.entries, "aws_access_key_id");
        let secret = lookup(&section.entries, "aws_secret_access_key");
        if key.is_some() && secret.is_some() {
            let profile = AwsProfile {
                name: section.name.clone(),
                region: lookup(&section.entries, "region"),
                access_key_id: key,
                secret_access_key: secret,
                session_token: lookup(&section.entries, "aws_session_token"),
                role_arn: None,
                source_profile: None,
            };
            self.put(profile);
        }
    }

    /// Reads a section of the config file: `default` and `profile <name>`
    /// sections complete (or create) the profile of that name with the region,
    /// role and source profile they give; other sections are ignored.
    pub fn add_config_section(&mut self, section: &IniSection)
        requires
            old(self).wf(),
        ensures
            final(self).wf(),
            config_profile_name(section.name@) is None ==> final(self).profiles == old(self).profiles,
            config_profile_name(section.name@) is Some ==> profile_names(final(self).profiles@).contains(
                config_profile_name(section.name@)->Some_0,
            ),
    {
        let name: String = if str_eq(section.name.as_str(), "default") {
            "default".to_string()
        } else {
            let n = section.name.as_str().unicode_len();
            if n >= 8 && str_eq(section.name.as_str().substring_char(0, 8), "profile ") {
                section.name.as_str().substring_char(8, n).to_string()
            } else {
                return;
            }
        };
        let mut profile = match self.position(name.as_str()) {
            Some(i) => self.profiles[i].clone(),
            None => AwsProfile {
                name: name.clone(),
                region: None,
                access_key_id: None,
                secret_access_key: None,
                session_token: None,
                role_arn: None,
                source_profile: None,
            },
        };
        let region = lookup(&section.entries, "region");
        if region.is_some() {
            profile.region = region;
        }
        let role = lookup(&section.entries, "role_arn");
        if role.is_some() {
            profile.role_arn = role;
        }
        let source = lookup(&section.entries, "source_profile");
        if source.is_some() {
            profile.source_profile = source;
        }
        let ghost pn = profile.name@;
        self.put(profile);
        proof {
            let i = choose|i: int| 0 <= i < self.profiles@.len() && self.profiles@[i].name@ == pn;
            assert(profile_names(self.profiles@)[i] == pn);
        }
    }

    /// Rebuilds the profiles from the sections of the credentials file, then of
    /// the config file.
    pub fn load_all_profiles(&mut self, credentials: &Vec<IniSection>, config: &Vec<IniSection>)
        ensures
            final(self).wf(),
    {
        self.profiles = Vec::new();
        let mut i: usize = 0;
        while i < credentials.len()
            invariant
                self.wf(),
            decreases credentials.len() - i,
        {
            self.add_credentials_section(&credentials[i]);
            i = i + 1;
        }
        let mut j: usize = 0;
        while j < config.len()
            invariant
                self.wf(),
            decreases config.len() - j,
        {
            self.add_config_section(&config[j]);
            j = j + 1;
        }
    }

    /// Copies of all profiles, in order.
    pub fn get_profiles(&self) -> (r: Vec<AwsProfile>)
        ensures
            profile_names(r@) == profile_names(self.profiles@),
    {
        clone_profiles(&self.profiles)
    }

    /// The profile called `name`, if any.
    pub fn get_profile(&self, name: &str) -> (r: Option<&AwsProfile>)
        ensures
            match r {
                Some(p) => p.name@ == name@ && self.profiles@.contains(*p),
                None => !profile_names(self.profiles@).contains(name@),
            },
    {
        match self.position(name) {
            Some(i) => Some(&self.profiles[i]),
            None => None,
        }
    }

    pub fn profile_exists(&self, name: &str) -> (r: bool)
        ensures
            r == profile_names(self.profiles@).contains(name@),
    {
        self.position(name).is_some()
    }

    /// The profile called `default`, if any.
    pub fn get_default_profile(&self) -> (r: Option<&AwsProfile>)
        ensures
            match r {
                Some(p) => p.name@ == "default"@ && self.profiles@.contains(*p),
                None => !profile_names(self.profiles@).contains("default"@),
            },
    {
        self.get_profile("default")
    }
}

} // verus!
