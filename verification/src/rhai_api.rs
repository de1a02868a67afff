//! The operations that the shell offers to scripts: which they are and under
//! which names a script calls them. The engine that runs the scripts is
//! given every operation once, when it is built, and none is taken away
//! again.

use vstd::prelude::*;

verus! {

/// The operations of the shell that a script can call. The engine is given
/// each of them once, under its name, when it is built.
#[derive(Clone, Copy, Debug, PartialEq, Eq, Structural)]
pub enum Primitive {
    /// The name of the user.
    GetUser,
    /// The working directory.
    GetCurrentDir,
    /// The value of an environment variable.
    GetVar,
    /// Sets an environment variable.
    SetVar,
    /// Adds an alias.
    AliasAdd,
    /// Lists the aliases.
    AliasList,
    /// Removes an alias.
    AliasRemove,
    /// The command of an alias.
    AliasGet,
    /// Removes every alias.
    AliasClear,
    /// A text in a colour.
    SetColor,
    /// A text in bold.
    SetBold,
    /// Runs a command line.
    System,
    /// Whether the working directory lies in a git repository.
    IsGitRepo,
    /// The branch that is checked out.
    GetGitBranch,
    /// Whether the repository has changes.
    GitIsDirty,
    /// Loads and runs another script.
    LoadPlugin,
    /// How far the branch is ahead of and behind its upstream.
    GitAheadBehind,
}

impl Primitive {
    /// The name under which a script calls the operation.
    pub open spec fn spec_name(self) -> Seq<char> {
        match self {
            Primitive::GetUser => "get_user"@,
            Primitive::GetCurrentDir => "get_current_dir"@,
            Primitive::GetVar => "get_var"@,
            Primitive::SetVar => "set_var"@,
            Primitive::AliasAdd => "alias_add"@,
            Primitive::AliasList => "alias_list"@,
            Primitive::AliasRemove => "alias_remove"@,
            Primitive::AliasGet => "alias_get"@,
            Primitive::AliasClear => "alias_clear"@,
            Primitive::SetColor => "set_color"@,
            Primitive::SetBold => "set_bold"@,
            Primitive::System => "system"@,
            Primitive::IsGitRepo => "is_git_repo"@,
            Primitive::GetGitBranch => "get_git_branch"@,
            Primitive::GitIsDirty => "git_is_dirty"@,
            Primitive::LoadPlugin => "load_plugin"@,
            Primitive::GitAheadBehind => "git_ahead_behind"@,
        }
    }

    /// The name under which a script calls the operation.
    pub fn name(self) -> (name: &'static str)
        ensures
            name@ == self.spec_name(),
    {
        match self {
            Primitive::GetUser => "get_user",
            Primitive::GetCurrentDir => "get_current_dir",
            Primitive::GetVar => "get_var",
            Primitive::SetVar => "set_var",
            Primitive::AliasAdd => "alias_add",
            Primitive::AliasList => "alias_list",
            Primitive::AliasRemove => "alias_remove",
            Primitive::AliasGet => "alias_get",
            Primitive::AliasClear => "alias_clear",
            Primitive::SetColor => "set_color",
            Primitive::SetBold => "set_bold",
            Primitive::System => "system",
            Primitive::IsGitRepo => "is_git_repo",
            Primitive::GetGitBranch => "get_git_branch",
            Primitive::GitIsDirty => "git_is_dirty",
            Primitive::LoadPlugin => "load_plugin",
            Primitive::GitAheadBehind => "git_ahead_behind",
        }
    }
}

/// The operations that the engine is given, in the order in which it is
/// given them.
pub open spec fn surface() -> Seq<Primitive> {
    seq![
        Primitive::GetUser,
        Primitive::GetCurrentDir,
        Primitive::GetVar,
        Primitive::SetVar,
        Primitive::AliasAdd,
        Primitive::AliasList,
        Primitive::AliasRemove,
        Primitive::AliasGet,
        Primitive::AliasClear,
        Primitive::SetColor,
        Primitive::SetBold,
        Primitive::System,
        Primitive::IsGitRepo,
        Primitive::GetGitBranch,
        Primitive::GitIsDirty,
        Primitive::LoadPlugin,
        Primitive::GitAheadBehind,
    ]
}

/// The operations that the engine is given: every one of them, once.
pub fn primitives() -> (all: Vec<Primitive>)
    ensures
        all@ == surface(),
        all@.no_duplicates(),
        forall|primitive: Primitive| all@.contains(primitive),
{
    let all = vec![
        Primitive::GetUser,
        Primitive::GetCurrentDir,
        Primitive::GetVar,
        Primitive::SetVar,
        Primitive::AliasAdd,
        Primitive::AliasList,
        Primitive::AliasRemove,
        Primitive::AliasGet,
        Primitive::AliasClear,
        Primitive::SetColor,
        Primitive::SetBold,
        Primitive::System,
        Primitive::IsGitRepo,
        Primitive::GetGitBranch,
        Primitive::GitIsDirty,
        Primitive::LoadPlugin,
        Primitive::GitAheadBehind,
    ];
    proof {
        assert(all@ =~= surface());
        law_surface_is_complete();
    }
    all
}

/// The surface holds every operation, and none of them twice.
pub proof fn law_surface_is_complete()
    ensures
        surface().no_duplicates(),
        forall|primitive: Primitive| surface().contains(primitive),
{
    let all = surface();
    assert forall|primitive: Primitive| all.contains(primitive) by {
        let at: int = match primitive {
            Primitive::GetUser => 0,
            Primitive::GetCurrentDir => 1,
            Primitive::GetVar => 2,
            Primitive::SetVar => 3,
            Primitive::AliasAdd => 4,
            Primitive::AliasList => 5,
            Primitive::AliasRemove => 6,
            Primitive::AliasGet => 7,
            Primitive::AliasClear => 8,
            Primitive::SetColor => 9,
            Primitive::SetBold => 10,
            Primitive::System => 11,
            Primitive::IsGitRepo => 12,
            Primitive::GetGitBranch => 13,
            Primitive::GitIsDirty => 14,
            Primitive::LoadPlugin => 15,
            Primitive::GitAheadBehind => 16,
        };
        assert(all[at] == primitive);
    }
}

/// No two operations share a name: a script that calls one by its name
/// reaches that one.
pub proof fn law_primitive_names_differ(one: Primitive, other: Primitive)
    ensures
        one.spec_name() == other.spec_name() <==> one == other,
{
    reveal_strlit("get_user");
    reveal_strlit("get_current_dir");
    reveal_strlit("get_var");
    reveal_strlit("set_var");
    reveal_strlit("alias_add");
    reveal_strlit("alias_list");
    reveal_strlit("alias_remove");
    reveal_strlit("alias_get");
    reveal_strlit("alias_clear");
    reveal_strlit("set_color");
    reveal_strlit("set_bold");
    reveal_strlit("system");
    reveal_strlit("is_git_repo");
    reveal_strlit("get_git_branch");
    reveal_strlit("git_is_dirty");
    reveal_strlit("load_plugin");
    reveal_strlit("git_ahead_behind");
    if one != other {
        let a = one.spec_name();
        let b = other.spec_name();
        assert(a.len() != b.len() || a[0] != b[0] || a[6] != b[6]);
    }
}

} // verus!
