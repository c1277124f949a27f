//! What one attempt is configured with: the module arguments and the
//! provider configuration, and the rule on the configuration file's mode.

use vstd::prelude::*;
use crate::text::{first_position, lemma_first_position_of_split, same_text, split_at_equals};

verus! {

/// The provider configuration of one attempt.
///
/// `client_secret` is a secret: nothing in this crate places it anywhere but
/// in a request field.
#[derive(Clone, Debug, PartialEq, Eq)]
pub struct Config {
    pub host: String,
    pub client_id: String,
    pub client_secret: String,
    /// Names of local groups whose members are accepted without any factor.
    pub bypass_groups: Vec<String>,
    /// Forward proxy; empty for none.
    pub http_proxy: String,
    pub debug: bool,
}

pub ghost struct ConfigView {
    pub host: Seq<char>,
    pub client_id: Seq<char>,
    pub client_secret: Seq<char>,
    pub bypass_groups: Seq<Seq<char>>,
    pub http_proxy: Seq<char>,
    pub debug: bool,
}

impl ConfigView {
    /// The configuration before any was loaded.
    pub open spec fn empty() -> ConfigView {
        ConfigView {
            host: Seq::empty(),
            client_id: Seq::empty(),
            client_secret: Seq::empty(),
            bypass_groups: Seq::empty(),
            http_proxy: Seq::empty(),
            debug: false,
        }
    }

    /// A configuration can be used when it names a provider host.
    pub open spec fn usable(self) -> bool {
        self.host.len() > 0
    }
}

impl View for Config {
    type V = ConfigView;

    open spec fn view(&self) -> ConfigView {
        ConfigView {
            host: self.host@,
            client_id: self.client_id@,
            client_secret: self.client_secret@,
            bypass_groups: self.bypass_groups.deep_view(),
            http_proxy: self.http_proxy@,
            debug: self.debug,
        }
    }
}

impl Config {
    pub fn empty() -> (config: Config)
        ensures
            config@ == ConfigView::empty(),
    {
        let config = Config {
            host: String::new(),
            client_id: String::new(),
            client_secret: String::new(),
            bypass_groups: Vec::new(),
            http_proxy: String::new(),
            debug: false,
        };
        assert(config.bypass_groups.deep_view() =~= Seq::<Seq<char>>::empty());
        config
    }

    pub fn is_usable(&self) -> (usable: bool)
        ensures
            usable == self@.usable(),
    {
        !self.host.as_str().is_empty()
    }
}

/// A mode is private when it grants nothing to the group and nothing to
/// everyone else: none of the six read and write bits and neither of the two
/// search bits below the owner's.
pub open spec fn mode_is_private(mode: u32) -> bool {
    mode & 0o077 == 0
}

/// Whether a configuration file of this mode may be used.
pub fn permissions_acceptable(mode: u32) -> (acceptable: bool)
    ensures
        acceptable == mode_is_private(mode),
{
    mode & 0o077 == 0
}

/// The module arguments of one attempt.
#[derive(Clone, Debug, PartialEq, Eq)]
pub struct Flags {
    pub config_path: String,
    /// Go straight to a push instead of asking for a passcode.
    pub autopush: bool,
    /// Check a password before the second factor.
    pub password_auth: bool,
    /// Try the credential the host already holds, then ask.
    pub try_first_pass: bool,
    /// Use the credential the host already holds and never ask.
    pub use_first_pass: bool,
    /// The arguments that mean nothing to this module, in their order.
    pub unrecognized: Vec<String>,
}

pub ghost struct FlagsView {
    pub config_path: Seq<char>,
    pub autopush: bool,
    pub password_auth: bool,
    pub try_first_pass: bool,
    pub use_first_pass: bool,
    pub unrecognized: Seq<Seq<char>>,
}

impl View for Flags {
    type V = FlagsView;

    open spec fn view(&self) -> FlagsView {
        FlagsView {
            config_path: self.config_path@,
            autopush: self.autopush,
            password_auth: self.password_auth,
            try_first_pass: self.try_first_pass,
            use_first_pass: self.use_first_pass,
            unrecognized: self.unrecognized.deep_view(),
        }
    }
}

impl FlagsView {
    /// The flags when no argument is given.
    pub open spec fn initial() -> FlagsView {
        FlagsView {
            config_path: "/etc/security/pam_okta_auth.toml"@,
            autopush: false,
            password_auth: false,
            try_first_pass: false,
            use_first_pass: false,
            unrecognized: Seq::empty(),
        }
    }

    /// The flags after one more argument.
    ///
    /// An argument with a `=` is a key and a value around its first `=`; the
    /// only key is `config_file`. One without is a bare word. Anything else
    /// is kept aside and changes nothing.
    pub open spec fn with_argument(self, arg: Seq<char>) -> FlagsView {
        let cut = first_position(arg, '=');
        if arg.contains('=') {
            if arg.take(cut) == "config_file"@ {
                FlagsView { config_path: arg.skip(cut + 1), ..self }
            } else {
                FlagsView { unrecognized: self.unrecognized.push(arg), ..self }
            }
        } else if arg == "autopush"@ {
            FlagsView { autopush: true, ..self }
        } else if arg == "password_auth"@ {
            FlagsView { password_auth: true, ..self }
        } else if arg == "try_first_pass"@ {
            FlagsView { try_first_pass: true, ..self }
        } else if arg == "use_first_pass"@ {
            FlagsView { use_first_pass: true, ..self }
        } else {
            FlagsView { unrecognized: self.unrecognized.push(arg), ..self }
        }
    }

    /// The flags that a list of arguments stands for, read left to right.
    pub open spec fn of(args: Seq<Seq<char>>) -> FlagsView
        decreases args.len(),
    {
        if args.len() == 0 {
            FlagsView::initial()
        } else {
            FlagsView::of(args.drop_last()).with_argument(args.last())
        }
    }
}

impl Flags {
    pub fn initial() -> (flags: Flags)
        ensures
            flags@ == FlagsView::initial(),
    {
        let flags = Flags {
            config_path: String::from_str("/etc/security/pam_okta_auth.toml"),
            autopush: false,
            password_auth: false,
            try_first_pass: false,
            use_first_pass: false,
            unrecognized: Vec::new(),
        };
        assert(flags.unrecognized.deep_view() =~= Seq::<Seq<char>>::empty());
        flags
    }

    fn set_aside(&mut self, arg: &str)
        ensures
            final(self)@ == (FlagsView {
                unrecognized: old(self)@.unrecognized.push(arg@),
                ..old(self)@
            }),
    {
        self.unrecognized.push(String::from_str(arg));
        assert(self.unrecognized.deep_view() =~= old(self).unrecognized.deep_view().push(arg@));
    }

    /// Takes one more argument into account.
    pub fn take_argument(&mut self, arg: &str)
        ensures
            final(self)@ == old(self)@.with_argument(arg@),
    {
        match split_at_equals(arg) {
            Some((key, value)) => {
                proof {
                    lemma_first_position_of_split(key@, '=', value@);
                    assert(arg@.take(key@.len() as int) =~= key@);
                    assert(arg@.skip(key@.len() as int + 1) =~= value@);
                }
                if same_text(key, "config_file") {
                    self.config_path = String::from_str(value);
                } else {
                    self.set_aside(arg);
                }
            },
            None => {
                if same_text(arg, "autopush") {
                    self.autopush = true;
                } else if same_text(arg, "password_auth") {
                    self.password_auth = true;
                } else if same_text(arg, "try_first_pass") {
                    self.try_first_pass = true;
                } else if same_text(arg, "use_first_pass") {
                    self.use_first_pass = true;
                } else {
                    self.set_aside(arg);
                }
            },
        }
    }

    /// Reads the module arguments. No argument is an error: what is not
    /// understood is kept in `unrecognized` and otherwise ignored.
    pub fn parse(args: &Vec<String>) -> (flags: Flags)
        ensures
            flags@ == FlagsView::of(args.deep_view()),
    {
        let mut flags = Flags::initial();
        let mut i: usize = 0;
        while i < args.len()
            invariant
                0 <= i <= args.len(),
                flags@ == FlagsView::of(args.deep_view().take(i as int)),
            decreases args.len() - i,
        {
            proof {
                let all = args.deep_view();
                assert(all.take(i + 1).drop_last() =~= all.take(i as int));
                assert(all.take(i + 1).last() == args[i as int]@);
            }
            flags.take_argument(args[i].as_str());
            i += 1;
        }
        proof {
            assert(args.deep_view().take(i as int) =~= args.deep_view());
        }
        flags
    }
}

} // verus!
