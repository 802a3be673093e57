use vstd::pervasive::unreached;
use vstd::prelude::*;

use crate::domain::ObsidianSettings;
use crate::error::AppError;
use crate::ports::{answer_kind, kind_of, PathInfo, PortCall, PortReply, ReplyKind, Step};
use crate::text::{concat2, is_blank, is_blank_str, owned, trim, trim_str};

verus! {

/// The saved vault of the default workspace, and whether it holds an `.obsidian` directory.
#[derive(Debug, Clone, PartialEq, Eq)]
pub struct ObsidianSettingsSummary {
    pub settings: ObsidianSettings,
    pub has_obsidian_directory: bool,
}

/// Reading the saved vault of the default workspace.
#[derive(Debug)]
pub enum GetObsidianSettingsFlow {
    AwaitWorkspace,
    AwaitSettings,
    AwaitProbe { settings: ObsidianSettings },
}

impl GetObsidianSettingsFlow {
    /// The call of `s`, if any, is answered by the kind of reply that the flow then awaits.
    pub open spec fn pairs(s: Step<GetObsidianSettingsFlow, Option<ObsidianSettingsSummary>>) -> bool {
        s matches Step::Call(f, c) ==> f.awaited() == answer_kind(c)
    }

    pub open spec fn awaited(self) -> ReplyKind {
        match self {
            GetObsidianSettingsFlow::AwaitWorkspace => ReplyKind::Workspace,
            GetObsidianSettingsFlow::AwaitSettings => ReplyKind::MaybeObsidianSettings,
            GetObsidianSettingsFlow::AwaitProbe { .. } => ReplyKind::Flag,
        }
    }

    pub open spec fn steps_to(self, reply: PortReply, s: Step<GetObsidianSettingsFlow, Option<ObsidianSettingsSummary>>) -> bool {
        match (self, reply) {
            (GetObsidianSettingsFlow::AwaitWorkspace, PortReply::Workspace(r)) => match r {
                Err(e) => s == Step::<GetObsidianSettingsFlow, Option<ObsidianSettingsSummary>>::Done(Err(e)),
                Ok(w) => s == Step::<GetObsidianSettingsFlow, Option<ObsidianSettingsSummary>>::Call(
                    GetObsidianSettingsFlow::AwaitSettings,
                    PortCall::FindObsidianSettings { workspace_id: w.id },
                ),
            },
            (GetObsidianSettingsFlow::AwaitSettings, PortReply::MaybeObsidianSettings(r)) => match r {
                Err(e) => s == Step::<GetObsidianSettingsFlow, Option<ObsidianSettingsSummary>>::Done(Err(e)),
                Ok(None) => s == Step::<GetObsidianSettingsFlow, Option<ObsidianSettingsSummary>>::Done(Ok(None)),
                Ok(Some(settings)) => s == Step::<GetObsidianSettingsFlow, Option<ObsidianSettingsSummary>>::Call(
                    GetObsidianSettingsFlow::AwaitProbe { settings },
                    PortCall::HasObsidianDirectory { vault_path: settings.vault_path },
                ),
            },
            (GetObsidianSettingsFlow::AwaitProbe { settings }, PortReply::Flag(found)) => s
                == Step::<GetObsidianSettingsFlow, Option<ObsidianSettingsSummary>>::Done(
                Ok(Some(ObsidianSettingsSummary { settings, has_obsidian_directory: found })),
            ),
            _ => false,
        }
    }

    pub fn start() -> (s: Step<GetObsidianSettingsFlow, Option<ObsidianSettingsSummary>>)
        ensures
            Self::pairs(s),
            s == Step::<GetObsidianSettingsFlow, Option<ObsidianSettingsSummary>>::Call(
                GetObsidianSettingsFlow::AwaitWorkspace,
                PortCall::EnsureDefaultWorkspace,
            ),
    {
        Step::Call(GetObsidianSettingsFlow::AwaitWorkspace, PortCall::EnsureDefaultWorkspace)
    }

    pub fn resume(self, reply: PortReply) -> (s: Step<GetObsidianSettingsFlow, Option<ObsidianSettingsSummary>>)
        requires
            kind_of(reply) == self.awaited(),
        ensures
            Self::pairs(s),
            self.steps_to(reply, s),
    {
        match (self, reply) {
            (GetObsidianSettingsFlow::AwaitWorkspace, PortReply::Workspace(r)) => match r {
                Err(e) => Step::Done(Err(e)),
                Ok(w) => Step::Call(
                    GetObsidianSettingsFlow::AwaitSettings,
                    PortCall::FindObsidianSettings { workspace_id: w.id },
                ),
            },
            (GetObsidianSettingsFlow::AwaitSettings, PortReply::MaybeObsidianSettings(r)) => match r {
                Err(e) => Step::Done(Err(e)),
                Ok(None) => Step::Done(Ok(None)),
                Ok(Some(settings)) => {
                    let vault_path = settings.vault_path.clone();
                    Step::Call(
                        GetObsidianSettingsFlow::AwaitProbe { settings },
                        PortCall::HasObsidianDirectory { vault_path },
                    )
                },
            },
            (GetObsidianSettingsFlow::AwaitProbe { settings }, PortReply::Flag(found)) => Step::Done(
                Ok(Some(ObsidianSettingsSummary { settings, has_obsidian_directory: found })),
            ),
            _ => unreached(),
        }
    }
}

/// Saving the vault path of the default workspace: it must name an existing directory,
/// which is not otherwise read or changed.
#[derive(Debug)]
pub enum SaveObsidianSettingsFlow {
    AwaitMetadata { vault_path: String },
    AwaitWorkspace { vault_path: String },
    AwaitUpsert { vault_path: String },
    AwaitProbe { settings: ObsidianSettings },
}

impl SaveObsidianSettingsFlow {
    /// The call of `s`, if any, is answered by the kind of reply that the flow then awaits.
    pub open spec fn pairs(s: Step<SaveObsidianSettingsFlow, ObsidianSettingsSummary>) -> bool {
        s matches Step::Call(f, c) ==> f.awaited() == answer_kind(c)
    }

    pub open spec fn awaited(self) -> ReplyKind {
        match self {
            SaveObsidianSettingsFlow::AwaitMetadata { .. } => ReplyKind::Path,
            SaveObsidianSettingsFlow::AwaitWorkspace { .. } => ReplyKind::Workspace,
            SaveObsidianSettingsFlow::AwaitUpsert { .. } => ReplyKind::ObsidianSettings,
            SaveObsidianSettingsFlow::AwaitProbe { .. } => ReplyKind::Flag,
        }
    }

    /// `s` refuses the path with the validation message `msg`.
    pub open spec fn refuses(s: Step<SaveObsidianSettingsFlow, ObsidianSettingsSummary>, msg: Seq<char>) -> bool {
        s matches Step::Done(Err(e)) && e.is_validation(msg)
    }

    pub open spec fn steps_to(self, reply: PortReply, s: Step<SaveObsidianSettingsFlow, ObsidianSettingsSummary>) -> bool {
        match (self, reply) {
            (SaveObsidianSettingsFlow::AwaitMetadata { vault_path }, PortReply::Path(info)) => match info {
                PathInfo::Missing => Self::refuses(s, "Obsidian vault path does not exist: "@ + vault_path@),
                PathInfo::Inaccessible => Self::refuses(s, "Obsidian vault path could not be accessed: "@ + vault_path@),
                PathInfo::Found { is_dir, .. } => if !is_dir {
                    Self::refuses(s, "Obsidian vault path is not a directory: "@ + vault_path@)
                } else {
                    s == Step::<SaveObsidianSettingsFlow, ObsidianSettingsSummary>::Call(
                        SaveObsidianSettingsFlow::AwaitWorkspace { vault_path },
                        PortCall::EnsureDefaultWorkspace,
                    )
                },
            },
            (SaveObsidianSettingsFlow::AwaitWorkspace { vault_path }, PortReply::Workspace(r)) => match r {
                Err(e) => s == Step::<SaveObsidianSettingsFlow, ObsidianSettingsSummary>::Done(Err(e)),
                Ok(w) => s == Step::<SaveObsidianSettingsFlow, ObsidianSettingsSummary>::Call(
                    SaveObsidianSettingsFlow::AwaitUpsert { vault_path },
                    PortCall::UpsertObsidianSettings { workspace_id: w.id, vault_path },
                ),
            },
            (SaveObsidianSettingsFlow::AwaitUpsert { vault_path }, PortReply::ObsidianSettings(r)) => match r {
                Err(e) => s == Step::<SaveObsidianSettingsFlow, ObsidianSettingsSummary>::Done(Err(e)),
                Ok(settings) => s == Step::<SaveObsidianSettingsFlow, ObsidianSettingsSummary>::Call(
                    SaveObsidianSettingsFlow::AwaitProbe { settings },
                    PortCall::HasObsidianDirectory { vault_path },
                ),
            },
            (SaveObsidianSettingsFlow::AwaitProbe { settings }, PortReply::Flag(found)) => s
                == Step::<SaveObsidianSettingsFlow, ObsidianSettingsSummary>::Done(
                Ok(ObsidianSettingsSummary { settings, has_obsidian_directory: found }),
            ),
            _ => false,
        }
    }

    /// Starts saving `vault_path` (trimmed); a blank path is refused.
    pub fn start(vault_path: String) -> (s: Step<SaveObsidianSettingsFlow, ObsidianSettingsSummary>)
        ensures
            Self::pairs(s),
            is_blank(vault_path@) ==> Self::refuses(s, "Obsidian vault path must not be empty"@),
            !is_blank(vault_path@) ==> (s matches Step::Call(
                SaveObsidianSettingsFlow::AwaitMetadata { vault_path: p },
                PortCall::InspectPath { path },
            ) && p@ == trim(vault_path@) && path == p),
    {
        if is_blank_str(vault_path.as_str()) {
            return Step::Done(Err(AppError::Validation(owned("Obsidian vault path must not be empty"))));
        }
        let p = trim_str(vault_path.as_str());
        let path = p.clone();
        Step::Call(SaveObsidianSettingsFlow::AwaitMetadata { vault_path: p }, PortCall::InspectPath { path })
    }

    pub fn resume(self, reply: PortReply) -> (s: Step<SaveObsidianSettingsFlow, ObsidianSettingsSummary>)
        requires
            kind_of(reply) == self.awaited(),
        ensures
            Self::pairs(s),
            self.steps_to(reply, s),
    {
        match (self, reply) {
            (SaveObsidianSettingsFlow::AwaitMetadata { vault_path }, PortReply::Path(info)) => match info {
                PathInfo::Missing => Step::Done(
                    Err(AppError::Validation(concat2("Obsidian vault path does not exist: ", vault_path.as_str()))),
                ),
                PathInfo::Inaccessible => Step::Done(
                    Err(AppError::Validation(concat2("Obsidian vault path could not be accessed: ", vault_path.as_str()))),
                ),
                PathInfo::Found { is_dir, .. } => if !is_dir {
                    Step::Done(
                        Err(AppError::Validation(concat2("Obsidian vault path is not a directory: ", vault_path.as_str()))),
                    )
                } else {
                    Step::Call(
                        SaveObsidianSettingsFlow::AwaitWorkspace { vault_path },
                        PortCall::EnsureDefaultWorkspace,
                    )
                },
            },
            (SaveObsidianSettingsFlow::AwaitWorkspace { vault_path }, PortReply::Workspace(r)) => match r {
                Err(e) => Step::Done(Err(e)),
                Ok(w) => {
                    let path = vault_path.clone();
                    Step::Call(
                        SaveObsidianSettingsFlow::AwaitUpsert { vault_path },
                        PortCall::UpsertObsidianSettings { workspace_id: w.id, vault_path: path },
                    )
                },
            },
            (SaveObsidianSettingsFlow::AwaitUpsert { vault_path }, PortReply::ObsidianSettings(r)) => match r {
                Err(e) => Step::Done(Err(e)),
                Ok(settings) => Step::Call(
                    SaveObsidianSettingsFlow::AwaitProbe { settings },
                    PortCall::HasObsidianDirectory { vault_path },
                ),
            },
            (SaveObsidianSettingsFlow::AwaitProbe { settings }, PortReply::Flag(found)) => Step::Done(
                Ok(ObsidianSettingsSummary { settings, has_obsidian_directory: found }),
            ),
            _ => unreached(),
        }
    }
}

} // verus!
