//! Resolving the values a run needs from what the operator supplied: a flag
//! value wins, else the prompt's reply, else the default. The repository
//! descriptor and the credentials-configuration flow are both assembled
//! through this one rule.

use vstd::prelude::*;
use crate::data::{Credentials, CredentialsView, RepositoryDescriptor, RepositoryDescriptorView,
    Visibility};
use vstd::string::StringExecFns;

verus! {

/// The one resolution rule: the explicit value when one was given, else
/// the reply the prompt obtained, else the default.
pub open spec fn spec_resolve_value(
    explicit: Option<Seq<char>>,
    reply: Option<Seq<char>>,
    default: Seq<char>,
) -> Seq<char> {
    match explicit {
        Some(v) => v,
        None => match reply {
            Some(r) => r,
            None => default,
        },
    }
}

/// Resolve one value from a flag, a prompt reply and a default.
pub fn resolve_value(explicit: Option<String>, reply: Option<String>, default: String) -> (v:
    String)
    ensures
        v@ == spec_resolve_value(explicit.deep_view(), reply.deep_view(), default@),
{
    match explicit {
        Some(v) => v,
        None => match reply {
            Some(r) => r,
            None => default,
        },
    }
}

/// The resolved visibility: private when the flag said so, else by the
/// operator's pick, where the second option is the private one.
pub open spec fn spec_resolve_visibility(private_flag: bool, pick: Option<usize>) -> Visibility {
    if private_flag {
        Visibility::Private
    } else {
        match pick {
            Some(1usize) => Visibility::Private,
            _ => Visibility::Public,
        }
    }
}

/// Resolve the repository visibility from the flag and the operator's pick.
pub fn resolve_visibility(private_flag: bool, pick: Option<usize>) -> (v: Visibility)
    ensures
        v == spec_resolve_visibility(private_flag, pick),
{
    if private_flag {
        Visibility::Private
    } else {
        match pick {
            Some(i) => {
                if i == 1 {
                    Visibility::Private
                } else {
                    Visibility::Public
                }
            },
            None => Visibility::Public,
        }
    }
}

/// The descriptor an initialization run is given, resolved from flags,
/// prompt replies, and the directory-name default: the name falls back to
/// the directory's base name, the description to a fixed text, and the
/// license comes from its flag alone.
pub open spec fn spec_resolve_descriptor(
    name_flag: Option<Seq<char>>,
    name_reply: Option<Seq<char>>,
    default_name: Seq<char>,
    description_flag: Option<Seq<char>>,
    description_reply: Option<Seq<char>>,
    private_flag: bool,
    visibility_pick: Option<usize>,
    license_flag: Option<Seq<char>>,
) -> RepositoryDescriptorView {
    RepositoryDescriptorView {
        name: spec_resolve_value(name_flag, name_reply, default_name),
        description: spec_resolve_value(
            description_flag,
            description_reply,
            "Created with git_mate"@,
        ),
        visibility: spec_resolve_visibility(private_flag, visibility_pick),
        license: license_flag,
    }
}

/// Resolve the full repository descriptor.
pub fn resolve_descriptor(
    name_flag: Option<String>,
    name_reply: Option<String>,
    default_name: String,
    description_flag: Option<String>,
    description_reply: Option<String>,
    private_flag: bool,
    visibility_pick: Option<usize>,
    license_flag: Option<String>,
) -> (d: RepositoryDescriptor)
    ensures
        d@ == spec_resolve_descriptor(
            name_flag.deep_view(),
            name_reply.deep_view(),
            default_name@,
            description_flag.deep_view(),
            description_reply.deep_view(),
            private_flag,
            visibility_pick,
            license_flag.deep_view(),
        ),
{
    let ghost nf = name_flag.deep_view();
    let ghost nr = name_reply.deep_view();
    let ghost dn = default_name@;
    let ghost df = description_flag.deep_view();
    let ghost dr = description_reply.deep_view();
    let ghost lf = license_flag.deep_view();
    let d = RepositoryDescriptor {
        name: resolve_value(name_flag, name_reply, default_name),
        description: resolve_value(
            description_flag,
            description_reply,
            String::from_str("Created with git_mate"),
        ),
        visibility: resolve_visibility(private_flag, visibility_pick),
        license: license_flag,
    };
    proof {
        assert(d@ =~~= spec_resolve_descriptor(nf, nr, dn, df, dr, private_flag, visibility_pick,
            lf));
    }
    d
}

/// Whether the configuration flow prompts interactively: only when no
/// configuration flag at all was supplied.
pub open spec fn spec_config_needs_prompt(
    token: Option<Seq<char>>,
    username: Option<Seq<char>>,
    branch: Option<Seq<char>>,
) -> bool {
    token is None && username is None && branch is None
}

/// Whether the configuration flow must prompt.
pub fn config_needs_prompt(
    token: &Option<String>,
    username: &Option<String>,
    branch: &Option<String>,
) -> (r: bool)
    ensures
        r == spec_config_needs_prompt(
            token.deep_view(),
            username.deep_view(),
            branch.deep_view(),
        ),
{
    token.is_none() && username.is_none() && branch.is_none()
}

/// The empty starting record the configuration flow edits when none was
/// persisted: empty token and username, "main" as the default branch.
pub open spec fn spec_blank_credentials() -> CredentialsView {
    CredentialsView {
        token: Seq::empty(),
        username: Seq::empty(),
        default_branch: Some("main"@),
        default_license: None,
    }
}

/// The record after the configuration flags are applied over the loaded
/// record (or the blank one): each supplied flag replaces its field.
pub open spec fn spec_apply_config_flags(
    existing: Option<CredentialsView>,
    token: Option<Seq<char>>,
    username: Option<Seq<char>>,
    branch: Option<Seq<char>>,
) -> CredentialsView {
    let base = match existing {
        Some(c) => c,
        None => spec_blank_credentials(),
    };
    CredentialsView {
        token: match token {
            Some(t) => t,
            None => base.token,
        },
        username: match username {
            Some(u) => u,
            None => base.username,
        },
        default_branch: match branch {
            Some(b) => Some(b),
            None => base.default_branch,
        },
        default_license: base.default_license,
    }
}

/// Apply the configuration flags over the loaded record.
pub fn apply_config_flags(
    existing: Option<Credentials>,
    token: Option<String>,
    username: Option<String>,
    branch: Option<String>,
) -> (c: Credentials)
    ensures
        c@ == spec_apply_config_flags(
            match existing {
                Some(e) => Some(e@),
                None => None,
            },
            token.deep_view(),
            username.deep_view(),
            branch.deep_view(),
        ),
{
    let ghost ex = match &existing {
        Some(e) => Some(e@),
        None => None,
    };
    let ghost tf = token.deep_view();
    let ghost uf = username.deep_view();
    let ghost bf = branch.deep_view();
    let base = match existing {
        Some(c) => c,
        None => Credentials {
            token: String::new(),
            username: String::new(),
            default_branch: Some(String::from_str("main")),
            default_license: None,
        },
    };
    let c = Credentials {
        token: match token {
            Some(t) => t,
            None => base.token,
        },
        username: match username {
            Some(u) => u,
            None => base.username,
        },
        default_branch: match branch {
            Some(b) => Some(b),
            None => base.default_branch,
        },
        default_license: base.default_license,
    };
    proof {
        assert(c@ =~~= spec_apply_config_flags(ex, tf, uf, bf));
    }
    c
}

/// The record after the interactive prompts: each answered prompt replaces
/// its field, an unanswered one keeps it; the default branch always ends
/// up set, falling back to "main".
pub open spec fn spec_apply_config_prompts(
    base: CredentialsView,
    username_reply: Option<Seq<char>>,
    token_reply: Option<Seq<char>>,
    branch_reply: Option<Seq<char>>,
) -> CredentialsView {
    CredentialsView {
        token: match token_reply {
            Some(t) => t,
            None => base.token,
        },
        username: match username_reply {
            Some(u) => u,
            None => base.username,
        },
        default_branch: Some(
            match branch_reply {
                Some(b) => b,
                None => "main"@,
            },
        ),
        default_license: base.default_license,
    }
}

/// Apply the interactive prompt replies over the record being edited.
pub fn apply_config_prompts(
    base: Credentials,
    username_reply: Option<String>,
    token_reply: Option<String>,
    branch_reply: Option<String>,
) -> (c: Credentials)
    ensures
        c@ == spec_apply_config_prompts(
            base@,
            username_reply.deep_view(),
            token_reply.deep_view(),
            branch_reply.deep_view(),
        ),
{
    let ghost b0 = base@;
    let ghost ur = username_reply.deep_view();
    let ghost tr = token_reply.deep_view();
    let ghost br = branch_reply.deep_view();
    let c = Credentials {
        token: match token_reply {
            Some(t) => t,
            None => base.token,
        },
        username: match username_reply {
            Some(u) => u,
            None => base.username,
        },
        default_branch: Some(
            match branch_reply {
                Some(b) => b,
                None => String::from_str("main"),
            },
        ),
        default_license: base.default_license,
    };
    proof {
        assert(c@ =~~= spec_apply_config_prompts(b0, ur, tr, br));
    }
    c
}

} // verus!
