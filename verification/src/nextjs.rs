//! Next.js App Router conventions: what a directory or file name means.

use vstd::prelude::*;
use crate::text::{has_char, str_eq, str_has_char, str_starts_with, str_ends_with, starts_with, ends_with};

verus! {

/// Errors of reading an App Router tree.
#[derive(Clone, Copy, Debug, PartialEq, Eq, Structural)]
pub enum AppRouterError {
    UnknownAssetType,
    UnknownDirectoryType,
    UnknownFileType,
    PathConversionError,
    /// A folder name that is not the name of an asset kind.
    AssetFolderKindConversionError,
}

impl AppRouterError {
    /// The message of the error.
    pub fn message(&self) -> (r: &'static str)
        ensures
            r@ == match self {
                AppRouterError::UnknownAssetType => "Unknown asset type"@,
                AppRouterError::UnknownDirectoryType => "Unknown directory type"@,
                AppRouterError::UnknownFileType => "Unknown file type"@,
                AppRouterError::PathConversionError => "Failed to convert path to string"@,
                AppRouterError::AssetFolderKindConversionError => "Matching variant not found"@,
            },
    {
        match self {
            AppRouterError::UnknownAssetType => "Unknown asset type",
            AppRouterError::UnknownDirectoryType => "Unknown directory type",
            AppRouterError::UnknownFileType => "Unknown file type",
            AppRouterError::PathConversionError => "Failed to convert path to string",
            AppRouterError::AssetFolderKindConversionError => "Matching variant not found",
        }
    }
}

/// The kinds of asset folders.
#[derive(Clone, Copy, Debug, PartialEq, Eq, Structural)]
pub enum AssetFolderKind {
    Font,
    Image,
    Video,
    Audio,
    Other,
}

/// The asset kind that a folder name names exactly, if any.
pub open spec fn asset_kind_named(s: Seq<char>) -> Option<AssetFolderKind> {
    if s == "Font"@ {
        Some(AssetFolderKind::Font)
    } else if s == "Image"@ {
        Some(AssetFolderKind::Image)
    } else if s == "Video"@ {
        Some(AssetFolderKind::Video)
    } else if s == "Audio"@ {
        Some(AssetFolderKind::Audio)
    } else if s == "Other"@ {
        Some(AssetFolderKind::Other)
    } else {
        None
    }
}

impl AssetFolderKind {
    /// The kind whose name is `folder`, compared exactly.
    pub fn from_name(folder: &str) -> (r: Result<AssetFolderKind, AppRouterError>)
        ensures
            match asset_kind_named(folder@) {
                Some(k) => r == Ok::<AssetFolderKind, AppRouterError>(k),
                None => r == Err::<AssetFolderKind, AppRouterError>(AppRouterError::AssetFolderKindConversionError),
            },
    {
        if str_eq(folder, "Font") {
            Ok(AssetFolderKind::Font)
        } else if str_eq(folder, "Image") {
            Ok(AssetFolderKind::Image)
        } else if str_eq(folder, "Video") {
            Ok(AssetFolderKind::Video)
        } else if str_eq(folder, "Audio") {
            Ok(AssetFolderKind::Audio)
        } else if str_eq(folder, "Other") {
            Ok(AssetFolderKind::Other)
        } else {
            Err(AppRouterError::AssetFolderKindConversionError)
        }
    }

    /// Whether `folder` is the name of an asset kind.
    pub fn is_asset_folder_str(folder: &str) -> (r: bool)
        ensures
            r == asset_kind_named(folder@) is Some,
    {
        AssetFolderKind::from_name(folder).is_ok()
    }
}

/// The kinds of App Router directories.
#[derive(Clone, Copy, Debug, PartialEq, Eq, Structural)]
pub enum AppRouterDirectoryKind {
    AssetFolder { asset_kind: AssetFolderKind },
    StaticRoute,
    DynamicRoute,
    CatchAllRoute,
    PrivateRoute,
    RouteGroup,
    DynamicRouteWithParams,
    DynamicRouteWithOptionalParams,
    DynamicRouteWithOptionalParamsAndCatchAll,
    NamedSlot,
    InterceptSameLevel,
    InterceptOneLevelAbove,
    InterceptTwoLevelsAbove,
    InterceptFromRoot,
}

/// The directory kind of a single folder name, by the first rule that
/// applies.
pub open spec fn folder_kind(f: Seq<char>) -> AppRouterDirectoryKind {
    if asset_kind_named(f) is Some {
        AppRouterDirectoryKind::AssetFolder { asset_kind: asset_kind_named(f)->0 }
    } else if starts_with(f, "["@) && ends_with(f, "]"@) {
        AppRouterDirectoryKind::DynamicRouteWithParams
    } else if starts_with(f, "[..."@) && ends_with(f, "]"@) {
        AppRouterDirectoryKind::CatchAllRoute
    } else if starts_with(f, "[[..."@) && ends_with(f, "]]"@) {
        AppRouterDirectoryKind::DynamicRouteWithOptionalParamsAndCatchAll
    } else if starts_with(f, "("@) && ends_with(f, ")"@) {
        AppRouterDirectoryKind::RouteGroup
    } else if starts_with(f, "_"@) {
        AppRouterDirectoryKind::PrivateRoute
    } else if starts_with(f, "@"@) {
        AppRouterDirectoryKind::NamedSlot
    } else if starts_with(f, "(.)"@) {
        AppRouterDirectoryKind::InterceptSameLevel
    } else if starts_with(f, "(..)"@) {
        AppRouterDirectoryKind::InterceptOneLevelAbove
    } else if starts_with(f, "(..)(..)"@) {
        AppRouterDirectoryKind::InterceptTwoLevelsAbove
    } else if starts_with(f, "(...)"@) {
        AppRouterDirectoryKind::InterceptFromRoot
    } else {
        AppRouterDirectoryKind::StaticRoute
    }
}

/// The directory kind of a path segment: a single folder name has one, a
/// name with `/` in it has none.
pub open spec fn directory_kind_of(value: Seq<char>) -> Result<AppRouterDirectoryKind, AppRouterError> {
    if has_char(value, '/') {
        Err(AppRouterError::UnknownDirectoryType)
    } else {
        Ok(folder_kind(value))
    }
}

impl AppRouterDirectoryKind {
    /// The kind of a directory by its name.
    pub fn try_from(value: &str) -> (r: Result<AppRouterDirectoryKind, AppRouterError>)
        ensures
            r == directory_kind_of(value@),
    {
        if str_has_char(value, '/') {
            return Err(AppRouterError::UnknownDirectoryType);
        }
        let folder = value;
        match AssetFolderKind::from_name(folder) {
            Ok(asset_kind) => {
                return Ok(AppRouterDirectoryKind::AssetFolder { asset_kind });
            },
            Err(_) => {},
        }
        if str_starts_with(folder, "[") && str_ends_with(folder, "]") {
            Ok(AppRouterDirectoryKind::DynamicRouteWithParams)
        } else if str_starts_with(folder, "[...") && str_ends_with(folder, "]") {
            Ok(AppRouterDirectoryKind::CatchAllRoute)
        } else if str_starts_with(folder, "[[...") && str_ends_with(folder, "]]") {
            Ok(AppRouterDirectoryKind::DynamicRouteWithOptionalParamsAndCatchAll)
        } else if str_starts_with(folder, "(") && str_ends_with(folder, ")") {
            Ok(AppRouterDirectoryKind::RouteGroup)
        } else if str_starts_with(folder, "_") {
            Ok(AppRouterDirectoryKind::PrivateRoute)
        } else if str_starts_with(folder, "@") {
            Ok(AppRouterDirectoryKind::NamedSlot)
        } else if str_starts_with(folder, "(.)") {
            Ok(AppRouterDirectoryKind::InterceptSameLevel)
        } else if str_starts_with(folder, "(..)") {
            Ok(AppRouterDirectoryKind::InterceptOneLevelAbove)
        } else if str_starts_with(folder, "(..)(..)") {
            Ok(AppRouterDirectoryKind::InterceptTwoLevelsAbove)
        } else if str_starts_with(folder, "(...)") {
            Ok(AppRouterDirectoryKind::InterceptFromRoot)
        } else {
            Ok(AppRouterDirectoryKind::StaticRoute)
        }
    }
}

/// The kinds of App Router files.
#[derive(Clone, Copy, Debug, PartialEq, Eq, Structural)]
pub enum AppRouterFileKind {
    Layout,
    Page,
    Loading,
    NotFound,
    Error,
    GlobalError,
    Route,
    Template,
    Default,
    Other,
}

/// The file kind of a file stem.
pub open spec fn file_kind_of(v: Seq<char>) -> AppRouterFileKind {
    if v == "layout"@ {
        AppRouterFileKind::Layout
    } else if v == "page"@ {
        AppRouterFileKind::Page
    } else if v == "loading"@ {
        AppRouterFileKind::Loading
    } else if v == "not-found"@ {
        AppRouterFileKind::NotFound
    } else if v == "error"@ {
        AppRouterFileKind::Error
    } else if v == "global-error"@ {
        AppRouterFileKind::GlobalError
    } else if v == "route"@ {
        AppRouterFileKind::Route
    } else if v == "template"@ {
        AppRouterFileKind::Template
    } else {
        AppRouterFileKind::Other
    }
}

impl AppRouterFileKind {
    /// The kind of a file by its stem; every stem has one.
    pub fn try_from(value: &str) -> (r: Result<AppRouterFileKind, AppRouterError>)
        ensures
            r == Ok::<AppRouterFileKind, AppRouterError>(file_kind_of(value@)),
    {
        Ok(if str_eq(value, "layout") {
            AppRouterFileKind::Layout
        } else if str_eq(value, "page") {
            AppRouterFileKind::Page
        } else if str_eq(value, "loading") {
            AppRouterFileKind::Loading
        } else if str_eq(value, "not-found") {
            AppRouterFileKind::NotFound
        } else if str_eq(value, "error") {
            AppRouterFileKind::Error
        } else if str_eq(value, "global-error") {
            AppRouterFileKind::GlobalError
        } else if str_eq(value, "route") {
            AppRouterFileKind::Route
        } else if str_eq(value, "template") {
            AppRouterFileKind::Template
        } else {
            AppRouterFileKind::Other
        })
    }
}

/// A directory of the App Router tree.
#[derive(Debug)]
pub struct Directory<T> {
    pub directory_kind: AppRouterDirectoryKind,
    pub path_segment: String,
    pub children: Vec<AppRouterEntry<T>>,
}

/// A file of the App Router tree, with data of the caller's.
#[derive(Debug)]
pub struct File<T> {
    pub file_kind: AppRouterFileKind,
    pub path_segment: String,
    pub data: T,
}

/// An entry of the App Router tree.
#[derive(Debug)]
pub enum AppRouterEntry<T> {
    Directory(Directory<T>),
    File(File<T>),
}

/// The entry of a directory named `path_segment` with stem `stem`, holding
/// `children`.
pub fn directory_entry<T>(stem: &str, path_segment: String, children: Vec<AppRouterEntry<T>>) -> (r: Result<AppRouterEntry<T>, AppRouterError>)
    ensures
        match directory_kind_of(stem@) {
            Ok(kind) => r matches Ok(AppRouterEntry::Directory(d)) && d.directory_kind == kind
                && d.path_segment == path_segment && d.children == children,
            Err(e) => r matches Err(e2) && e2 == e,
        },
{
    let directory_kind = AppRouterDirectoryKind::try_from(stem)?;
    Ok(AppRouterEntry::Directory(Directory { directory_kind, path_segment, children }))
}

/// The entry of a file named `path_segment` with stem `stem`, holding `data`.
pub fn file_entry<T>(stem: &str, path_segment: String, data: T) -> (r: AppRouterEntry<T>)
    ensures
        r matches AppRouterEntry::File(f) && f.file_kind == file_kind_of(stem@) && f.path_segment == path_segment
            && f.data == data,
{
    let file_kind = match AppRouterFileKind::try_from(stem) {
        Ok(k) => k,
        Err(_) => AppRouterFileKind::Other,
    };
    AppRouterEntry::File(File { file_kind, path_segment, data })
}

/// Reads App Router trees.
pub struct Cli;

impl Cli {
    pub fn new() -> (r: Cli) {
        Cli
    }
}

} // verus!
