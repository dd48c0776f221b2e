//! The typed records of the add-on catalog API, their decoding from a JSON
//! document, the request URLs, and the error taxonomy of a fetch.

use vstd::prelude::*;
use vstd::string::StringExecFns;

use crate::json::{
    arr_field, bool_field, get_bool, get_num, get_opt_num, get_opt_str, get_opt_u32, get_str,
    get_str_arr, get_u16, get_u32, lemma_obj_member_smaller, num_field, obj_get, obj_get_exec,
    opt_num_field, opt_str_field, opt_u32_field, str_arr_match, str_arr_shape, str_field,
    u16_field, u32_field, DecodeError, Json, Num,
};

verus! {

/// A taxonomy section grouping categories of one game.
#[derive(Clone, Debug)]
pub struct CategorySection {
    pub id: u32,
    pub game_id: u32,
    pub name: String,
    pub package_type: u32,
    pub path: String,
    pub initial_inclusion_pattern: String,
    pub extra_include_pattern: Option<String>,
    pub game_category_id: u16,
}

/// `j` is an object holding every required member of a category section,
/// each of the right type.
pub open spec fn category_section_shape(j: Json) -> bool {
    &&& j is Obj
    &&& {
        let m = j->Obj_0@;
        &&& u32_field(m, "id"@) is Some
        &&& u32_field(m, "gameId"@) is Some
        &&& str_field(m, "name"@) is Some
        &&& u32_field(m, "packageType"@) is Some
        &&& str_field(m, "path"@) is Some
        &&& str_field(m, "initialInclusionPattern"@) is Some
        &&& opt_str_field(m, "extraIncludePattern"@) is Some
        &&& u16_field(m, "gameCategoryId"@) is Some
    }
}

/// `c` carries exactly the member values of the object `j`.
pub open spec fn category_section_matches(c: CategorySection, j: Json) -> bool {
    let m = j->Obj_0@;
    &&& c.id == u32_field(m, "id"@)->0
    &&& c.game_id == u32_field(m, "gameId"@)->0
    &&& c.name@ == str_field(m, "name"@)->0
    &&& c.package_type == u32_field(m, "packageType"@)->0
    &&& c.path@ == str_field(m, "path"@)->0
    &&& c.initial_inclusion_pattern@ == str_field(m, "initialInclusionPattern"@)->0
    &&& c.extra_include_pattern.deep_view() == opt_str_field(m, "extraIncludePattern"@)->0
    &&& c.game_category_id == u16_field(m, "gameCategoryId"@)->0
}

impl CategorySection {
    /// Decodes a category section record; fails exactly when a required
    /// member is absent or of the wrong type.
    pub fn from_json(j: &Json) -> (r: Result<CategorySection, DecodeError>)
        ensures
            r is Ok <==> category_section_shape(*j),
            r matches Ok(c) ==> category_section_matches(c, *j),
    {
        let m = match j {
            Json::Obj(m) => m,
            _ => {
                return Err(DecodeError::NotAnObject);
            },
        };
        let id = get_u32(m, "id")?;
        let game_id = get_u32(m, "gameId")?;
        let name = get_str(m, "name")?;
        let package_type = get_u32(m, "packageType")?;
        let path = get_str(m, "path")?;
        let initial_inclusion_pattern = get_str(m, "initialInclusionPattern")?;
        let extra_include_pattern = get_opt_str(m, "extraIncludePattern")?;
        let game_category_id = get_u16(m, "gameCategoryId")?;
        Ok(
            CategorySection {
                id,
                game_id,
                name,
                package_type,
                path,
                initial_inclusion_pattern,
                extra_include_pattern,
                game_category_id,
            },
        )
    }
}

/// A member of the team publishing an add-on.
#[derive(Clone, Debug)]
pub struct Author {
    pub name: String,
    pub url: String,
    pub project_id: Num,
    pub id: Num,
    pub project_title_id: Option<Num>,
    pub project_title_title: Option<String>,
    pub user_id: Num,
    pub twitch_id: Num,
}

pub open spec fn author_shape(j: Json) -> bool {
    &&& j is Obj
    &&& {
        let m = j->Obj_0@;
        &&& str_field(m, "name"@) is Some
        &&& str_field(m, "url"@) is Some
        &&& num_field(m, "projectId"@) is Some
        &&& num_field(m, "id"@) is Some
        &&& opt_num_field(m, "projectTitleId"@) is Some
        &&& opt_str_field(m, "projectTitleTitle"@) is Some
        &&& num_field(m, "userId"@) is Some
        &&& num_field(m, "twitchId"@) is Some
    }
}

pub open spec fn author_matches(a: Author, j: Json) -> bool {
    let m = j->Obj_0@;
    &&& a.name@ == str_field(m, "name"@)->0
    &&& a.url@ == str_field(m, "url"@)->0
    &&& a.project_id == num_field(m, "projectId"@)->0
    &&& a.id == num_field(m, "id"@)->0
    &&& a.project_title_id == opt_num_field(m, "projectTitleId"@)->0
    &&& a.project_title_title.deep_view() == opt_str_field(m, "projectTitleTitle"@)->0
    &&& a.user_id == num_field(m, "userId"@)->0
    &&& a.twitch_id == num_field(m, "twitchId"@)->0
}

pub open spec fn authors_arr_shape(s: Seq<Json>) -> bool {
    forall|t: int| 0 <= t < s.len() ==> author_shape(#[trigger] s[t])
}

pub open spec fn authors_arr_match(v: Seq<Author>, s: Seq<Json>) -> bool {
    v.len() == s.len() && forall|t: int| 0 <= t < s.len() ==> author_matches(#[trigger] v[t], s[t])
}

impl Author {
    /// Decodes an author record; fails exactly when a required member is
    /// absent or of the wrong type.
    pub fn from_json(j: &Json) -> (r: Result<Author, DecodeError>)
        ensures
            r is Ok <==> author_shape(*j),
            r matches Ok(a) ==> author_matches(a, *j),
    {
        let m = match j {
            Json::Obj(m) => m,
            _ => {
                return Err(DecodeError::NotAnObject);
            },
        };
        let name = get_str(m, "name")?;
        let url = get_str(m, "url")?;
        let project_id = get_num(m, "projectId")?;
        let id = get_num(m, "id")?;
        let project_title_id = get_opt_num(m, "projectTitleId")?;
        let project_title_title = get_opt_str(m, "projectTitleTitle")?;
        let user_id = get_num(m, "userId")?;
        let twitch_id = get_num(m, "twitchId")?;
        Ok(
            Author {
                name,
                url,
                project_id,
                id,
                project_title_id,
                project_title_title,
                user_id,
                twitch_id,
            },
        )
    }
}

fn get_authors(m: &Vec<(String, Json)>, k: &str) -> (r: Result<Vec<Author>, DecodeError>)
    ensures
        r is Ok <==> (arr_field(m@, k@) is Some && authors_arr_shape(arr_field(m@, k@)->0)),
        r matches Ok(v) ==> authors_arr_match(v@, arr_field(m@, k@)->0),
{
    let a = match obj_get_exec(m, k) {
        None => {
            return Err(DecodeError::MissingField(k.to_owned()));
        },
        Some(Json::Arr(a)) => a,
        Some(_) => {
            return Err(DecodeError::WrongType(k.to_owned()));
        },
    };
    let mut out: Vec<Author> = Vec::new();
    let mut i: usize = 0;
    while i < a.len()
        invariant
            arr_field(m@, k@) == Some(a@),
            0 <= i <= a@.len(),
            out@.len() == i,
            forall|t: int| 0 <= t < i ==> author_shape(#[trigger] a@[t]),
            forall|t: int| 0 <= t < i ==> author_matches(#[trigger] out@[t], a@[t]),
        decreases a@.len() - i,
    {
        match Author::from_json(&a[i]) {
            Ok(x) => out.push(x),
            Err(e) => {
                proof {
                    assert(!author_shape(a@[i as int]));
                }
                return Err(e);
            },
        }
        i = i + 1;
    }
    Ok(out)
}

/// A picture or other media attached to an add-on.
#[derive(Clone, Debug)]
pub struct Attachment {
    pub id: Num,
    pub project_id: Num,
    pub description: String,
    pub is_default: bool,
    pub thumbnail_url: String,
    pub title: String,
    pub url: String,
    pub status: u16,
}

pub open spec fn attachment_shape(j: Json) -> bool {
    &&& j is Obj
    &&& {
        let m = j->Obj_0@;
        &&& num_field(m, "id"@) is Some
        &&& num_field(m, "projectId"@) is Some
        &&& str_field(m, "description"@) is Some
        &&& bool_field(m, "isDefault"@) is Some
        &&& str_field(m, "thumbnailUrl"@) is Some
        &&& str_field(m, "title"@) is Some
        &&& str_field(m, "url"@) is Some
        &&& u16_field(m, "status"@) is Some
    }
}

pub open spec fn attachment_matches(a: Attachment, j: Json) -> bool {
    let m = j->Obj_0@;
    &&& a.id == num_field(m, "id"@)->0
    &&& a.project_id == num_field(m, "projectId"@)->0
    &&& a.description@ == str_field(m, "description"@)->0
    &&& a.is_default == bool_field(m, "isDefault"@)->0
    &&& a.thumbnail_url@ == str_field(m, "thumbnailUrl"@)->0
    &&& a.title@ == str_field(m, "title"@)->0
    &&& a.url@ == str_field(m, "url"@)->0
    &&& a.status == u16_field(m, "status"@)->0
}

pub open spec fn attachments_arr_shape(s: Seq<Json>) -> bool {
    forall|t: int| 0 <= t < s.len() ==> attachment_shape(#[trigger] s[t])
}

pub open spec fn attachments_arr_match(v: Seq<Attachment>, s: Seq<Json>) -> bool {
    v.len() == s.len() && forall|t: int|
        0 <= t < s.len() ==> attachment_matches(#[trigger] v[t], s[t])
}

impl Attachment {
    /// Decodes an attachment record; fails exactly when a required member
    /// is absent or of the wrong type.
    pub fn from_json(j: &Json) -> (r: Result<Attachment, DecodeError>)
        ensures
            r is Ok <==> attachment_shape(*j),
            r matches Ok(a) ==> attachment_matches(a, *j),
    {
        let m = match j {
            Json::Obj(m) => m,
            _ => {
                return Err(DecodeError::NotAnObject);
            },
        };
        let id = get_num(m, "id")?;
        let project_id = get_num(m, "projectId")?;
        let description = get_str(m, "description")?;
        let is_default = get_bool(m, "isDefault")?;
        let thumbnail_url = get_str(m, "thumbnailUrl")?;
        let title = get_str(m, "title")?;
        let url = get_str(m, "url")?;
        let status = get_u16(m, "status")?;
        Ok(
            Attachment {
                id,
                project_id,
                description,
                is_default,
                thumbnail_url,
                title,
                url,
                status,
            },
        )
    }
}

fn get_attachments(m: &Vec<(String, Json)>, k: &str) -> (r: Result<Vec<Attachment>, DecodeError>)
    ensures
        r is Ok <==> (arr_field(m@, k@) is Some && attachments_arr_shape(arr_field(m@, k@)->0)),
        r matches Ok(v) ==> attachments_arr_match(v@, arr_field(m@, k@)->0),
{
    let a = match obj_get_exec(m, k) {
        None => {
            return Err(DecodeError::MissingField(k.to_owned()));
        },
        Some(Json::Arr(a)) => a,
        Some(_) => {
            return Err(DecodeError::WrongType(k.to_owned()));
        },
    };
    let mut out: Vec<Attachment> = Vec::new();
    let mut i: usize = 0;
    while i < a.len()
        invariant
            arr_field(m@, k@) == Some(a@),
            0 <= i <= a@.len(),
            out@.len() == i,
            forall|t: int| 0 <= t < i ==> attachment_shape(#[trigger] a@[t]),
            forall|t: int| 0 <= t < i ==> attachment_matches(#[trigger] out@[t], a@[t]),
        decreases a@.len() - i,
    {
        match Attachment::from_json(&a[i]) {
            Ok(x) => out.push(x),
            Err(e) => {
                proof {
                    assert(!attachment_shape(a@[i as int]));
                }
                return Err(e);
            },
        }
        i = i + 1;
    }
    Ok(out)
}

/// The slice of a category that an add-on record embeds.
#[derive(Clone, Debug)]
pub struct PartialCategory {
    pub category_id: u32,
    pub name: String,
    pub url: String,
    pub avatar_url: String,
    pub parent_id: u32,
    pub root_id: u32,
    pub project_id: Num,
    pub avatar_id: u16,
    pub game_id: u32,
}

pub open spec fn partial_category_shape(j: Json) -> bool {
    &&& j is Obj
    &&& {
        let m = j->Obj_0@;
        &&& u32_field(m, "categoryId"@) is Some
        &&& str_field(m, "name"@) is Some
        &&& str_field(m, "url"@) is Some
        &&& str_field(m, "avatarUrl"@) is Some
        &&& u32_field(m, "parentId"@) is Some
        &&& u32_field(m, "rootId"@) is Some
        &&& num_field(m, "projectId"@) is Some
        &&& u16_field(m, "avatarId"@) is Some
        &&& u32_field(m, "gameId"@) is Some
    }
}

pub open spec fn partial_category_matches(c: PartialCategory, j: Json) -> bool {
    let m = j->Obj_0@;
    &&& c.category_id == u32_field(m, "categoryId"@)->0
    &&& c.name@ == str_field(m, "name"@)->0
    &&& c.url@ == str_field(m, "url"@)->0
    &&& c.avatar_url@ == str_field(m, "avatarUrl"@)->0
    &&& c.parent_id == u32_field(m, "parentId"@)->0
    &&& c.root_id == u32_field(m, "rootId"@)->0
    &&& c.project_id == num_field(m, "projectId"@)->0
    &&& c.avatar_id == u16_field(m, "avatarId"@)->0
    &&& c.game_id == u32_field(m, "gameId"@)->0
}

pub open spec fn partial_categories_arr_shape(s: Seq<Json>) -> bool {
    forall|t: int| 0 <= t < s.len() ==> partial_category_shape(#[trigger] s[t])
}

pub open spec fn partial_categories_arr_match(v: Seq<PartialCategory>, s: Seq<Json>) -> bool {
    v.len() == s.len() && forall|t: int|
        0 <= t < s.len() ==> partial_category_matches(#[trigger] v[t], s[t])
}

impl PartialCategory {
    /// Decodes an embedded category record; fails exactly when a required
    /// member is absent or of the wrong type.
    pub fn from_json(j: &Json) -> (r: Result<PartialCategory, DecodeError>)
        ensures
            r is Ok <==> partial_category_shape(*j),
            r matches Ok(c) ==> partial_category_matches(c, *j),
    {
        let m = match j {
            Json::Obj(m) => m,
            _ => {
                return Err(DecodeError::NotAnObject);
            },
        };
        let category_id = get_u32(m, "categoryId")?;
        let name = get_str(m, "name")?;
        let url = get_str(m, "url")?;
        let avatar_url = get_str(m, "avatarUrl")?;
        let parent_id = get_u32(m, "parentId")?;
        let root_id = get_u32(m, "rootId")?;
        let project_id = get_num(m, "projectId")?;
        let avatar_id = get_u16(m, "avatarId")?;
        let game_id = get_u32(m, "gameId")?;
        Ok(
            PartialCategory {
                category_id,
                name,
                url,
                avatar_url,
                parent_id,
                root_id,
                project_id,
                avatar_id,
                game_id,
            },
        )
    }
}

fn get_partial_categories(m: &Vec<(String, Json)>, k: &str) -> (r: Result<
    Vec<PartialCategory>,
    DecodeError,
>)
    ensures
        r is Ok <==> (arr_field(m@, k@) is Some && partial_categories_arr_shape(
            arr_field(m@, k@)->0,
        )),
        r matches Ok(v) ==> partial_categories_arr_match(v@, arr_field(m@, k@)->0),
{
    let a = match obj_get_exec(m, k) {
        None => {
            return Err(DecodeError::MissingField(k.to_owned()));
        },
        Some(Json::Arr(a)) => a,
        Some(_) => {
            return Err(DecodeError::WrongType(k.to_owned()));
        },
    };
    let mut out: Vec<PartialCategory> = Vec::new();
    let mut i: usize = 0;
    while i < a.len()
        invariant
            arr_field(m@, k@) == Some(a@),
            0 <= i <= a@.len(),
            out@.len() == i,
            forall|t: int| 0 <= t < i ==> partial_category_shape(#[trigger] a@[t]),
            forall|t: int| 0 <= t < i ==> partial_category_matches(#[trigger] out@[t], a@[t]),
        decreases a@.len() - i,
    {
        match PartialCategory::from_json(&a[i]) {
            Ok(x) => out.push(x),
            Err(e) => {
                proof {
                    assert(!partial_category_shape(a@[i as int]));
                }
                return Err(e);
            },
        }
        i = i + 1;
    }
    Ok(out)
}

/// The newest file of an add-on for one game version.
#[derive(Clone, Debug)]
pub struct GameVersionFile {
    pub game_version: String,
    pub project_file_id: Num,
    pub project_file_name: String,
    pub file_type: u16,
}

pub open spec fn game_version_file_shape(j: Json) -> bool {
    &&& j is Obj
    &&& {
        let m = j->Obj_0@;
        &&& str_field(m, "gameVersion"@) is Some
        &&& num_field(m, "projectFileId"@) is Some
        &&& str_field(m, "projectFileName"@) is Some
        &&& u16_field(m, "fileType"@) is Some
    }
}

pub open spec fn game_version_file_matches(g: GameVersionFile, j: Json) -> bool {
    let m = j->Obj_0@;
    &&& g.game_version@ == str_field(m, "gameVersion"@)->0
    &&& g.project_file_id == num_field(m, "projectFileId"@)->0
    &&& g.project_file_name@ == str_field(m, "projectFileName"@)->0
    &&& g.file_type == u16_field(m, "fileType"@)->0
}

pub open spec fn game_version_files_arr_shape(s: Seq<Json>) -> bool {
    forall|t: int| 0 <= t < s.len() ==> game_version_file_shape(#[trigger] s[t])
}

pub open spec fn game_version_files_arr_match(v: Seq<GameVersionFile>, s: Seq<Json>) -> bool {
    v.len() == s.len() && forall|t: int|
        0 <= t < s.len() ==> game_version_file_matches(#[trigger] v[t], s[t])
}

impl GameVersionFile {
    /// Decodes a game-version file record; fails exactly when a required
    /// member is absent or of the wrong type.
    pub fn from_json(j: &Json) -> (r: Result<GameVersionFile, DecodeError>)
        ensures
            r is Ok <==> game_version_file_shape(*j),
            r matches Ok(g) ==> game_version_file_matches(g, *j),
    {
        let m = match j {
            Json::Obj(m) => m,
            _ => {
                return Err(DecodeError::NotAnObject);
            },
        };
        let game_version = get_str(m, "gameVersion")?;
        let project_file_id = get_num(m, "projectFileId")?;
        let project_file_name = get_str(m, "projectFileName")?;
        let file_type = get_u16(m, "fileType")?;
        Ok(GameVersionFile { game_version, project_file_id, project_file_name, file_type })
    }
}

fn get_game_version_files(m: &Vec<(String, Json)>, k: &str) -> (r: Result<
    Vec<GameVersionFile>,
    DecodeError,
>)
    ensures
        r is Ok <==> (arr_field(m@, k@) is Some && game_version_files_arr_shape(
            arr_field(m@, k@)->0,
        )),
        r matches Ok(v) ==> game_version_files_arr_match(v@, arr_field(m@, k@)->0),
{
    let a = match obj_get_exec(m, k) {
        None => {
            return Err(DecodeError::MissingField(k.to_owned()));
        },
        Some(Json::Arr(a)) => a,
        Some(_) => {
            return Err(DecodeError::WrongType(k.to_owned()));
        },
    };
    let mut out: Vec<GameVersionFile> = Vec::new();
    let mut i: usize = 0;
    while i < a.len()
        invariant
            arr_field(m@, k@) == Some(a@),
            0 <= i <= a@.len(),
            out@.len() == i,
            forall|t: int| 0 <= t < i ==> game_version_file_shape(#[trigger] a@[t]),
            forall|t: int| 0 <= t < i ==> game_version_file_matches(#[trigger] out@[t], a@[t]),
        decreases a@.len() - i,
    {
        match GameVersionFile::from_json(&a[i]) {
            Ok(x) => out.push(x),
            Err(e) => {
                proof {
                    assert(!game_version_file_shape(a@[i as int]));
                }
                return Err(e);
            },
        }
        i = i + 1;
    }
    Ok(out)
}

/// A named sub-component bundled inside a downloadable file.
#[derive(Clone, Debug)]
pub struct Module {
    pub folder_name: String,
    pub fingerprint: Num,
    pub module_type: u16,
}

pub open spec fn module_shape(j: Json) -> bool {
    &&& j is Obj
    &&& {
        let m = j->Obj_0@;
        &&& str_field(m, "foldername"@) is Some
        &&& num_field(m, "fingerprint"@) is Some
        &&& u16_field(m, "type"@) is Some
    }
}

pub open spec fn module_matches(x: Module, j: Json) -> bool {
    let m = j->Obj_0@;
    &&& x.folder_name@ == str_field(m, "foldername"@)->0
    &&& x.fingerprint == num_field(m, "fingerprint"@)->0
    &&& x.module_type == u16_field(m, "type"@)->0
}

pub open spec fn modules_arr_shape(s: Seq<Json>) -> bool {
    forall|t: int| 0 <= t < s.len() ==> module_shape(#[trigger] s[t])
}

pub open spec fn modules_arr_match(v: Seq<Module>, s: Seq<Json>) -> bool {
    v.len() == s.len() && forall|t: int| 0 <= t < s.len() ==> module_matches(#[trigger] v[t], s[t])
}

impl Module {
    /// Decodes a module record. On the wire the folder member is spelled
    /// `foldername` and the kind member is spelled `type`.
    pub fn from_json(j: &Json) -> (r: Result<Module, DecodeError>)
        ensures
            r is Ok <==> module_shape(*j),
            r matches Ok(x) ==> module_matches(x, *j),
    {
        let m = match j {
            Json::Obj(m) => m,
            _ => {
                return Err(DecodeError::NotAnObject);
            },
        };
        let folder_name = get_str(m, "foldername")?;
        let fingerprint = get_num(m, "fingerprint")?;
        let module_type = get_u16(m, "type")?;
        Ok(Module { folder_name, fingerprint, module_type })
    }
}

fn get_modules(m: &Vec<(String, Json)>, k: &str) -> (r: Result<Vec<Module>, DecodeError>)
    ensures
        r is Ok <==> (arr_field(m@, k@) is Some && modules_arr_shape(arr_field(m@, k@)->0)),
        r matches Ok(v) ==> modules_arr_match(v@, arr_field(m@, k@)->0),
{
    let a = match obj_get_exec(m, k) {
        None => {
            return Err(DecodeError::MissingField(k.to_owned()));
        },
        Some(Json::Arr(a)) => a,
        Some(_) => {
            return Err(DecodeError::WrongType(k.to_owned()));
        },
    };
    let mut out: Vec<Module> = Vec::new();
    let mut i: usize = 0;
    while i < a.len()
        invariant
            arr_field(m@, k@) == Some(a@),
            0 <= i <= a@.len(),
            out@.len() == i,
            forall|t: int| 0 <= t < i ==> module_shape(#[trigger] a@[t]),
            forall|t: int| 0 <= t < i ==> module_matches(#[trigger] out@[t], a@[t]),
        decreases a@.len() - i,
    {
        match Module::from_json(&a[i]) {
            Ok(x) => out.push(x),
            Err(e) => {
                proof {
                    assert(!module_shape(a@[i as int]));
                }
                return Err(e);
            },
        }
        i = i + 1;
    }
    Ok(out)
}

/// A game version string together with its sortable padded form.
#[derive(Clone, Debug)]
pub struct SortableGameVersion {
    pub game_version_padded: String,
    pub game_version: String,
    pub game_version_release_date: String,
    pub game_version_name: String,
}

pub open spec fn sortable_game_version_shape(j: Json) -> bool {
    &&& j is Obj
    &&& {
        let m = j->Obj_0@;
        &&& str_field(m, "gameVersionPadded"@) is Some
        &&& str_field(m, "gameVersion"@) is Some
        &&& str_field(m, "gameVersionReleaseDate"@) is Some
        &&& str_field(m, "gameVersionName"@) is Some
    }
}

pub open spec fn sortable_game_version_matches(g: SortableGameVersion, j: Json) -> bool {
    let m = j->Obj_0@;
    &&& g.game_version_padded@ == str_field(m, "gameVersionPadded"@)->0
    &&& g.game_version@ == str_field(m, "gameVersion"@)->0
    &&& g.game_version_release_date@ == str_field(m, "gameVersionReleaseDate"@)->0
    &&& g.game_version_name@ == str_field(m, "gameVersionName"@)->0
}

pub open spec fn sortable_game_versions_arr_shape(s: Seq<Json>) -> bool {
    forall|t: int| 0 <= t < s.len() ==> sortable_game_version_shape(#[trigger] s[t])
}

pub open spec fn sortable_game_versions_arr_match(
    v: Seq<SortableGameVersion>,
    s: Seq<Json>,
) -> bool {
    v.len() == s.len() && forall|t: int|
        0 <= t < s.len() ==> sortable_game_version_matches(#[trigger] v[t], s[t])
}

impl SortableGameVersion {
    /// Decodes a sortable game version record; fails exactly when a
    /// required member is absent or of the wrong type.
    pub fn from_json(j: &Json) -> (r: Result<SortableGameVersion, DecodeError>)
        ensures
            r is Ok <==> sortable_game_version_shape(*j),
            r matches Ok(g) ==> sortable_game_version_matches(g, *j),
    {
        let m = match j {
            Json::Obj(m) => m,
            _ => {
                return Err(DecodeError::NotAnObject);
            },
        };
        let game_version_padded = get_str(m, "gameVersionPadded")?;
        let game_version = get_str(m, "gameVersion")?;
        let game_version_release_date = get_str(m, "gameVersionReleaseDate")?;
        let game_version_name = get_str(m, "gameVersionName")?;
        Ok(
            SortableGameVersion {
                game_version_padded,
                game_version,
                game_version_release_date,
                game_version_name,
            },
        )
    }
}

fn get_sortable_game_versions(m: &Vec<(String, Json)>, k: &str) -> (r: Result<
    Vec<SortableGameVersion>,
    DecodeError,
>)
    ensures
        r is Ok <==> (arr_field(m@, k@) is Some && sortable_game_versions_arr_shape(
            arr_field(m@, k@)->0,
        )),
        r matches Ok(v) ==> sortable_game_versions_arr_match(v@, arr_field(m@, k@)->0),
{
    let a = match obj_get_exec(m, k) {
        None => {
            return Err(DecodeError::MissingField(k.to_owned()));
        },
        Some(Json::Arr(a)) => a,
        Some(_) => {
            return Err(DecodeError::WrongType(k.to_owned()));
        },
    };
    let mut out: Vec<SortableGameVersion> = Vec::new();
    let mut i: usize = 0;
    while i < a.len()
        invariant
            arr_field(m@, k@) == Some(a@),
            0 <= i <= a@.len(),
            out@.len() == i,
            forall|t: int| 0 <= t < i ==> sortable_game_version_shape(#[trigger] a@[t]),
            forall|t: int| 0 <= t < i ==> sortable_game_version_matches(#[trigger] out@[t], a@[t]),
        decreases a@.len() - i,
    {
        match SortableGameVersion::from_json(&a[i]) {
            Ok(x) => out.push(x),
            Err(e) => {
                proof {
                    assert(!sortable_game_version_shape(a@[i as int]));
                }
                return Err(e);
            },
        }
        i = i + 1;
    }
    Ok(out)
}

/// A taxonomy category of the catalog.
#[derive(Clone, Debug)]
pub struct Category {
    pub id: Num,
    pub name: String,
    pub slug: String,
    pub avatar_url: String,
    pub date_modified: String,
    pub parent_game_category_id: Num,
    pub root: Num,
    pub game_id: Num,
}

pub open spec fn category_shape(j: Json) -> bool {
    &&& j is Obj
    &&& {
        let m = j->Obj_0@;
        &&& num_field(m, "id"@) is Some
        &&& str_field(m, "name"@) is Some
        &&& str_field(m, "slug"@) is Some
        &&& str_field(m, "avatarUrl"@) is Some
        &&& str_field(m, "dateModified"@) is Some
        &&& num_field(m, "parentGameCategoryId"@) is Some
        &&& num_field(m, "root"@) is Some
        &&& num_field(m, "gameId"@) is Some
    }
}

pub open spec fn category_matches(c: Category, j: Json) -> bool {
    let m = j->Obj_0@;
    &&& c.id == num_field(m, "id"@)->0
    &&& c.name@ == str_field(m, "name"@)->0
    &&& c.slug@ == str_field(m, "slug"@)->0
    &&& c.avatar_url@ == str_field(m, "avatarUrl"@)->0
    &&& c.date_modified@ == str_field(m, "dateModified"@)->0
    &&& c.parent_game_category_id == num_field(m, "parentGameCategoryId"@)->0
    &&& c.root == num_field(m, "root"@)->0
    &&& c.game_id == num_field(m, "gameId"@)->0
}

pub open spec fn categories_arr_shape(s: Seq<Json>) -> bool {
    forall|t: int| 0 <= t < s.len() ==> category_shape(#[trigger] s[t])
}

pub open spec fn categories_arr_match(v: Seq<Category>, s: Seq<Json>) -> bool {
    v.len() == s.len() && forall|t: int|
        0 <= t < s.len() ==> category_matches(#[trigger] v[t], s[t])
}

impl Category {
    /// Decodes a category record; fails exactly when a required member is
    /// absent or of the wrong type.
    pub fn from_json(j: &Json) -> (r: Result<Category, DecodeError>)
        ensures
            r is Ok <==> category_shape(*j),
            r matches Ok(c) ==> category_matches(c, *j),
    {
        let m = match j {
            Json::Obj(m) => m,
            _ => {
                return Err(DecodeError::NotAnObject);
            },
        };
        let id = get_num(m, "id")?;
        let name = get_str(m, "name")?;
        let slug = get_str(m, "slug")?;
        let avatar_url = get_str(m, "avatarUrl")?;
        let date_modified = get_str(m, "dateModified")?;
        let parent_game_category_id = get_num(m, "parentGameCategoryId")?;
        let root = get_num(m, "root")?;
        let game_id = get_num(m, "gameId")?;
        Ok(
            Category {
                id,
                name,
                slug,
                avatar_url,
                date_modified,
                parent_game_category_id,
                root,
                game_id,
            },
        )
    }

    /// Decodes a category section response: a JSON array of categories.
    /// The result holds exactly one record per array element, in order; an
    /// empty array yields an empty result, not an error.
    pub fn section_from_json(j: &Json) -> (r: Result<Vec<Category>, DecodeError>)
        ensures
            r is Ok <==> (*j is Arr && categories_arr_shape(j->Arr_0@)),
            r matches Ok(v) ==> v@.len() == j->Arr_0@.len(),
            r matches Ok(v) ==> categories_arr_match(v@, j->Arr_0@),
    {
        let a = match j {
            Json::Arr(a) => a,
            _ => {
                return Err(DecodeError::NotAnArray);
            },
        };
        let mut out: Vec<Category> = Vec::new();
        let mut i: usize = 0;
        while i < a.len()
            invariant
                *j is Arr && j->Arr_0@ == a@,
                0 <= i <= a@.len(),
                out@.len() == i,
                forall|t: int| 0 <= t < i ==> category_shape(#[trigger] a@[t]),
                forall|t: int| 0 <= t < i ==> category_matches(#[trigger] out@[t], a@[t]),
            decreases a@.len() - i,
        {
            match Category::from_json(&a[i]) {
                Ok(x) => out.push(x),
                Err(e) => {
                    proof {
                        assert(!category_shape(a@[i as int]));
                    }
                    return Err(e);
                },
            }
            i = i + 1;
        }
        Ok(out)
    }
}


/// A downloadable release artifact of an add-on. A file may depend on
/// further files and may expose one alternative file, so the record is a
/// tree.
#[derive(Debug)]
pub struct File {
    pub id: Num,
    pub display_name: String,
    pub file_name: String,
    pub file_date: String,
    pub file_length: u32,
    pub release_type: u16,
    pub file_status: u16,
    pub download_url: String,
    pub is_alternate: bool,
    pub alternate_file_id: u32,
    pub dependencies: Vec<File>,
    pub is_available: bool,
    pub modules: Vec<Module>,
    pub package_fingerprint: Num,
    pub game_version: Vec<String>,
    pub sortable_game_version: Vec<SortableGameVersion>,
    pub install_metadata: Option<String>,
    pub changelog: Option<String>,
    pub has_install_script: bool,
    pub is_compatible_with_client: bool,
    pub category_section_package_type: u16,
    pub restrict_project_file_access: u16,
    pub project_status: u16,
    pub render_cache_id: Num,
    pub file_legacy_mapping_id: Option<Num>,
    pub project_id: Num,
    pub parent_project_file_id: Option<Num>,
    pub parent_file_legacy_mapping_id: Option<Num>,
    pub file_type_id: Option<Num>,
    pub expose_as_alternative: Box<Option<File>>,
    pub package_fingerprint_id: Num,
    pub game_version_date_released: String,
    pub game_version_mapping_id: Num,
    pub game_version_id: u32,
    pub game_id: u32,
    pub is_server_pack: bool,
    pub server_pack_file_id: Option<u32>,
}

pub open spec fn file_shape(j: Json) -> bool
    decreases j,
{
    &&& j is Obj
    &&& {
        let m = j->Obj_0@;
        &&& num_field(m, "id"@) is Some
        &&& str_field(m, "displayName"@) is Some
        &&& str_field(m, "fileName"@) is Some
        &&& str_field(m, "fileDate"@) is Some
        &&& u32_field(m, "fileLength"@) is Some
        &&& u16_field(m, "releaseType"@) is Some
        &&& u16_field(m, "fileStatus"@) is Some
        &&& str_field(m, "downloadUrl"@) is Some
        &&& bool_field(m, "isAlternate"@) is Some
        &&& u32_field(m, "alternateFileId"@) is Some
        &&& match obj_get(m, "dependencies"@) {
            Some(dj) => dj is Arr && {
                proof {
                    lemma_obj_member_smaller(j, "dependencies"@);
                    assert(decreases_to!(dj => dj->Arr_0));
                    assert(decreases_to!(dj->Arr_0 => dj->Arr_0@));
                }
                files_arr_shape(dj->Arr_0@)
            },
            None => false,
        }
        &&& bool_field(m, "isAvailable"@) is Some
        &&& arr_field(m, "modules"@) is Some
        &&& modules_arr_shape(arr_field(m, "modules"@)->0)
        &&& num_field(m, "packageFingerprint"@) is Some
        &&& arr_field(m, "gameVersion"@) is Some
        &&& str_arr_shape(arr_field(m, "gameVersion"@)->0)
        &&& arr_field(m, "sortableGameVersion"@) is Some
        &&& sortable_game_versions_arr_shape(arr_field(m, "sortableGameVersion"@)->0)
        &&& opt_str_field(m, "installMetadata"@) is Some
        &&& opt_str_field(m, "changelog"@) is Some
        &&& bool_field(m, "hasInstallScript"@) is Some
        &&& bool_field(m, "isCompatibleWithClient"@) is Some
        &&& u16_field(m, "categorySectionPackageType"@) is Some
        &&& u16_field(m, "restrictProjectFileAccess"@) is Some
        &&& u16_field(m, "projectStatus"@) is Some
        &&& num_field(m, "renderCacheId"@) is Some
        &&& opt_num_field(m, "fileLegacyMappingId"@) is Some
        &&& num_field(m, "projectId"@) is Some
        &&& opt_num_field(m, "parentProjectFileId"@) is Some
        &&& opt_num_field(m, "parentFileLegacyMappingId"@) is Some
        &&& opt_num_field(m, "fileTypeId"@) is Some
        &&& match obj_get(m, "exposeAsAlternative"@) {
            Some(Json::Null) => true,
            Some(aj) => {
                proof {
                    lemma_obj_member_smaller(j, "exposeAsAlternative"@);
                }
                file_shape(aj)
            },
            None => false,
        }
        &&& num_field(m, "packageFingerprintId"@) is Some
        &&& str_field(m, "gameVersionDateReleased"@) is Some
        &&& num_field(m, "gameVersionMappingId"@) is Some
        &&& u32_field(m, "gameVersionId"@) is Some
        &&& u32_field(m, "gameId"@) is Some
        &&& bool_field(m, "isServerPack"@) is Some
        &&& opt_u32_field(m, "serverPackFileId"@) is Some
    }
}

/// Every element of `s` decodes as a file.
pub open spec fn files_arr_shape(s: Seq<Json>) -> bool
    decreases s,
{
    s.len() == 0 || (file_shape(s[0]) && files_arr_shape(s.subrange(1, s.len() as int)))
}

pub open spec fn file_matches(f: File, j: Json) -> bool
    decreases j,
{
    let m = j->Obj_0@;
    &&& j is Obj
    &&& f.id == num_field(m, "id"@)->0
    &&& f.display_name@ == str_field(m, "displayName"@)->0
    &&& f.file_name@ == str_field(m, "fileName"@)->0
    &&& f.file_date@ == str_field(m, "fileDate"@)->0
    &&& f.file_length == u32_field(m, "fileLength"@)->0
    &&& f.release_type == u16_field(m, "releaseType"@)->0
    &&& f.file_status == u16_field(m, "fileStatus"@)->0
    &&& f.download_url@ == str_field(m, "downloadUrl"@)->0
    &&& f.is_alternate == bool_field(m, "isAlternate"@)->0
    &&& f.alternate_file_id == u32_field(m, "alternateFileId"@)->0
    &&& match obj_get(m, "dependencies"@) {
        Some(dj) => dj is Arr && {
            proof {
                lemma_obj_member_smaller(j, "dependencies"@);
                assert(decreases_to!(dj => dj->Arr_0));
                assert(decreases_to!(dj->Arr_0 => dj->Arr_0@));
            }
            files_arr_match(f.dependencies@, dj->Arr_0@)
        },
        None => false,
    }
    &&& f.is_available == bool_field(m, "isAvailable"@)->0
    &&& modules_arr_match(f.modules@, arr_field(m, "modules"@)->0)
    &&& f.package_fingerprint == num_field(m, "packageFingerprint"@)->0
    &&& str_arr_match(f.game_version@, arr_field(m, "gameVersion"@)->0)
    &&& sortable_game_versions_arr_match(
        f.sortable_game_version@,
        arr_field(m, "sortableGameVersion"@)->0,
    )
    &&& f.install_metadata.deep_view() == opt_str_field(m, "installMetadata"@)->0
    &&& f.changelog.deep_view() == opt_str_field(m, "changelog"@)->0
    &&& f.has_install_script == bool_field(m, "hasInstallScript"@)->0
    &&& f.is_compatible_with_client == bool_field(m, "isCompatibleWithClient"@)->0
    &&& f.category_section_package_type == u16_field(m, "categorySectionPackageType"@)->0
    &&& f.restrict_project_file_access == u16_field(m, "restrictProjectFileAccess"@)->0
    &&& f.project_status == u16_field(m, "projectStatus"@)->0
    &&& f.render_cache_id == num_field(m, "renderCacheId"@)->0
    &&& f.file_legacy_mapping_id == opt_num_field(m, "fileLegacyMappingId"@)->0
    &&& f.project_id == num_field(m, "projectId"@)->0
    &&& f.parent_project_file_id == opt_num_field(m, "parentProjectFileId"@)->0
    &&& f.parent_file_legacy_mapping_id == opt_num_field(m, "parentFileLegacyMappingId"@)->0
    &&& f.file_type_id == opt_num_field(m, "fileTypeId"@)->0
    &&& match obj_get(m, "exposeAsAlternative"@) {
        Some(Json::Null) => (*f.expose_as_alternative) is None,
        Some(aj) => {
            proof {
                lemma_obj_member_smaller(j, "exposeAsAlternative"@);
            }
            (*f.expose_as_alternative) matches Some(alt) && file_matches(alt, aj)
        },
        None => false,
    }
    &&& f.package_fingerprint_id == num_field(m, "packageFingerprintId"@)->0
    &&& f.game_version_date_released@ == str_field(m, "gameVersionDateReleased"@)->0
    &&& f.game_version_mapping_id == num_field(m, "gameVersionMappingId"@)->0
    &&& f.game_version_id == u32_field(m, "gameVersionId"@)->0
    &&& f.game_id == u32_field(m, "gameId"@)->0
    &&& f.is_server_pack == bool_field(m, "isServerPack"@)->0
    &&& f.server_pack_file_id == opt_u32_field(m, "serverPackFileId"@)->0
}

/// `v` holds exactly one decoded file per element of `s`, in order.
pub open spec fn files_arr_match(v: Seq<File>, s: Seq<Json>) -> bool
    decreases s,
{
    v.len() == s.len() && (s.len() == 0 || (file_matches(v[0], s[0]) && files_arr_match(
        v.subrange(1, v.len() as int),
        s.subrange(1, s.len() as int),
    )))
}

/// `files_arr_shape` says exactly that every element decodes as a file.
pub proof fn lemma_files_arr_shape_pointwise(s: Seq<Json>)
    ensures
        files_arr_shape(s) <==> (forall|t: int| 0 <= t < s.len() ==> file_shape(#[trigger] s[t])),
    decreases s.len(),
{
    if s.len() > 0 {
        let tail = s.subrange(1, s.len() as int);
        lemma_files_arr_shape_pointwise(tail);
        assert(forall|t: int| 0 <= t < tail.len() ==> tail[t] == s[t + 1]);
        if files_arr_shape(s) {
            assert forall|t: int| 0 <= t < s.len() implies file_shape(#[trigger] s[t]) by {
                if t > 0 {
                    assert(file_shape(tail[t - 1]));
                }
            }
        }
        if forall|t: int| 0 <= t < s.len() ==> file_shape(#[trigger] s[t]) {
            assert forall|t: int| 0 <= t < tail.len() implies file_shape(#[trigger] tail[t]) by {
                assert(file_shape(s[t + 1]));
            }
            assert(files_arr_shape(tail));
            assert(file_shape(s[0]));
        }
    }
}

/// `files_arr_match` says exactly that the records pair off with the
/// elements.
pub proof fn lemma_files_arr_match_pointwise(v: Seq<File>, s: Seq<Json>)
    ensures
        files_arr_match(v, s) <==> (v.len() == s.len() && forall|t: int|
            0 <= t < s.len() ==> file_matches(#[trigger] v[t], s[t])),
    decreases s.len(),
{
    if s.len() > 0 && v.len() == s.len() {
        let vt = v.subrange(1, v.len() as int);
        let st = s.subrange(1, s.len() as int);
        lemma_files_arr_match_pointwise(vt, st);
        assert(forall|t: int| 0 <= t < st.len() ==> st[t] == s[t + 1]);
        assert(forall|t: int| 0 <= t < vt.len() ==> vt[t] == v[t + 1]);
        if files_arr_match(v, s) {
            assert forall|t: int| 0 <= t < s.len() implies file_matches(#[trigger] v[t], s[t]) by {
                if t > 0 {
                    assert(file_matches(vt[t - 1], st[t - 1]));
                }
            }
        }
        if forall|t: int| 0 <= t < s.len() ==> file_matches(#[trigger] v[t], s[t]) {
            assert forall|t: int| 0 <= t < st.len() implies file_matches(
                #[trigger] vt[t],
                st[t],
            ) by {
                assert(file_matches(v[t + 1], s[t + 1]));
            }
            assert(files_arr_match(vt, st));
            assert(file_matches(v[0], s[0]));
        }
    }
}

fn files_from_arr(a: &Vec<Json>) -> (r: Result<Vec<File>, DecodeError>)
    ensures
        r is Ok <==> files_arr_shape(a@),
        r matches Ok(v) ==> files_arr_match(v@, a@),
    decreases a@,
{
    let mut out: Vec<File> = Vec::new();
    let mut i: usize = 0;
    while i < a.len()
        invariant
            0 <= i <= a@.len(),
            out@.len() == i,
            forall|t: int| 0 <= t < i ==> file_shape(#[trigger] a@[t]),
            forall|t: int| 0 <= t < i ==> file_matches(#[trigger] out@[t], a@[t]),
        decreases a@.len() - i,
    {
        proof {
            assert(decreases_to!(a@ => a@[i as int]));
        }
        match File::from_json(&a[i]) {
            Ok(x) => out.push(x),
            Err(e) => {
                proof {
                    assert(!file_shape(a@[i as int]));
                    lemma_files_arr_shape_pointwise(a@);
                }
                return Err(e);
            },
        }
        i = i + 1;
    }
    proof {
        lemma_files_arr_shape_pointwise(a@);
        lemma_files_arr_match_pointwise(out@, a@);
    }
    Ok(out)
}

fn get_files(m: &Vec<(String, Json)>, k: &str) -> (r: Result<Vec<File>, DecodeError>)
    ensures
        r is Ok <==> (arr_field(m@, k@) is Some && files_arr_shape(arr_field(m@, k@)->0)),
        r matches Ok(v) ==> files_arr_match(v@, arr_field(m@, k@)->0),
{
    match obj_get_exec(m, k) {
        None => Err(DecodeError::MissingField(k.to_owned())),
        Some(Json::Arr(a)) => files_from_arr(a),
        Some(_) => Err(DecodeError::WrongType(k.to_owned())),
    }
}

impl File {
    /// Decodes a file record, its dependency files, and its optional
    /// alternative file; fails exactly when a required member anywhere in
    /// the tree is absent or of the wrong type.
    pub fn from_json(j: &Json) -> (r: Result<File, DecodeError>)
        ensures
            r is Ok <==> file_shape(*j),
            r matches Ok(f) ==> file_matches(f, *j),
        decreases *j,
    {
        let m = match j {
            Json::Obj(m) => m,
            _ => {
                return Err(DecodeError::NotAnObject);
            },
        };
        let id = get_num(m, "id")?;
        let display_name = get_str(m, "displayName")?;
        let file_name = get_str(m, "fileName")?;
        let file_date = get_str(m, "fileDate")?;
        let file_length = get_u32(m, "fileLength")?;
        let release_type = get_u16(m, "releaseType")?;
        let file_status = get_u16(m, "fileStatus")?;
        let download_url = get_str(m, "downloadUrl")?;
        let is_alternate = get_bool(m, "isAlternate")?;
        let alternate_file_id = get_u32(m, "alternateFileId")?;
        let dependencies = match obj_get_exec(m, "dependencies") {
            None => {
                return Err(DecodeError::MissingField("dependencies".to_owned()));
            },
            Some(dj) => match dj {
                Json::Arr(a) => {
                    proof {
                        lemma_obj_member_smaller(*j, "dependencies"@);
                        assert(decreases_to!(*dj => dj->Arr_0));
                        assert(decreases_to!(dj->Arr_0 => dj->Arr_0@));
                    }
                    match files_from_arr(a) {
                        Ok(v) => v,
                        Err(e) => {
                            return Err(e);
                        },
                    }
                },
                _ => {
                    return Err(DecodeError::WrongType("dependencies".to_owned()));
                },
            },
        };
        let is_available = get_bool(m, "isAvailable")?;
        let modules = get_modules(m, "modules")?;
        let package_fingerprint = get_num(m, "packageFingerprint")?;
        let game_version = get_str_arr(m, "gameVersion")?;
        let sortable_game_version = get_sortable_game_versions(m, "sortableGameVersion")?;
        let install_metadata = get_opt_str(m, "installMetadata")?;
        let changelog = get_opt_str(m, "changelog")?;
        let has_install_script = get_bool(m, "hasInstallScript")?;
        let is_compatible_with_client = get_bool(m, "isCompatibleWithClient")?;
        let category_section_package_type = get_u16(m, "categorySectionPackageType")?;
        let restrict_project_file_access = get_u16(m, "restrictProjectFileAccess")?;
        let project_status = get_u16(m, "projectStatus")?;
        let render_cache_id = get_num(m, "renderCacheId")?;
        let file_legacy_mapping_id = get_opt_num(m, "fileLegacyMappingId")?;
        let project_id = get_num(m, "projectId")?;
        let parent_project_file_id = get_opt_num(m, "parentProjectFileId")?;
        let parent_file_legacy_mapping_id = get_opt_num(m, "parentFileLegacyMappingId")?;
        let file_type_id = get_opt_num(m, "fileTypeId")?;
        let expose_as_alternative: Box<Option<File>> = match obj_get_exec(
            m,
            "exposeAsAlternative",
        ) {
            None => {
                return Err(DecodeError::MissingField("exposeAsAlternative".to_owned()));
            },
            Some(Json::Null) => Box::new(None),
            Some(aj) => {
                proof {
                    lemma_obj_member_smaller(*j, "exposeAsAlternative"@);
                }
                match File::from_json(aj) {
                    Ok(f) => Box::new(Some(f)),
                    Err(e) => {
                        return Err(e);
                    },
                }
            },
        };
        let package_fingerprint_id = get_num(m, "packageFingerprintId")?;
        let game_version_date_released = get_str(m, "gameVersionDateReleased")?;
        let game_version_mapping_id = get_num(m, "gameVersionMappingId")?;
        let game_version_id = get_u32(m, "gameVersionId")?;
        let game_id = get_u32(m, "gameId")?;
        let is_server_pack = get_bool(m, "isServerPack")?;
        let server_pack_file_id = get_opt_u32(m, "serverPackFileId")?;
        Ok(
            File {
                id,
                display_name,
                file_name,
                file_date,
                file_length,
                release_type,
                file_status,
                download_url,
                is_alternate,
                alternate_file_id,
                dependencies,
                is_available,
                modules,
                package_fingerprint,
                game_version,
                sortable_game_version,
                install_metadata,
                changelog,
                has_install_script,
                is_compatible_with_client,
                category_section_package_type,
                restrict_project_file_access,
                project_status,
                render_cache_id,
                file_legacy_mapping_id,
                project_id,
                parent_project_file_id,
                parent_file_legacy_mapping_id,
                file_type_id,
                expose_as_alternative,
                package_fingerprint_id,
                game_version_date_released,
                game_version_mapping_id,
                game_version_id,
                game_id,
                is_server_pack,
                server_pack_file_id,
            },
        )
    }
}


/// The top-level metadata record of an add-on in the catalog.
#[derive(Debug)]
pub struct Addon {
    pub id: Num,
    pub name: String,
    pub authors: Vec<Author>,
    pub attachments: Vec<Attachment>,
    pub website_url: String,
    pub game_id: Num,
    pub summary: String,
    pub default_file_id: Num,
    pub download_count: Num,
    pub latest_files: Vec<File>,
    pub categories: Vec<PartialCategory>,
    pub status: u32,
    pub primary_category_id: u32,
    pub category_section: CategorySection,
    pub slug: String,
    pub game_version_latest_files: Vec<GameVersionFile>,
    pub is_featured: bool,
    pub popularity_score: Num,
    pub game_popularity_rank: Num,
    pub primary_language: String,
    pub game_slug: String,
    pub game_name: String,
    pub portal_name: String,
    pub date_modified: String,
    pub date_created: String,
    pub date_released: String,
    pub is_available: bool,
    pub is_experimental: bool,
}

pub open spec fn addon_shape(j: Json) -> bool {
    &&& j is Obj
    &&& {
        let m = j->Obj_0@;
        &&& num_field(m, "id"@) is Some
        &&& str_field(m, "name"@) is Some
        &&& arr_field(m, "authors"@) is Some
        &&& authors_arr_shape(arr_field(m, "authors"@)->0)
        &&& arr_field(m, "attachments"@) is Some
        &&& attachments_arr_shape(arr_field(m, "attachments"@)->0)
        &&& str_field(m, "websiteUrl"@) is Some
        &&& num_field(m, "gameId"@) is Some
        &&& str_field(m, "summary"@) is Some
        &&& num_field(m, "defaultFileId"@) is Some
        &&& num_field(m, "downloadCount"@) is Some
        &&& arr_field(m, "latestFiles"@) is Some
        &&& files_arr_shape(arr_field(m, "latestFiles"@)->0)
        &&& arr_field(m, "categories"@) is Some
        &&& partial_categories_arr_shape(arr_field(m, "categories"@)->0)
        &&& u32_field(m, "status"@) is Some
        &&& u32_field(m, "primaryCategoryId"@) is Some
        &&& obj_get(m, "categorySection"@) is Some
        &&& category_section_shape(obj_get(m, "categorySection"@)->0)
        &&& str_field(m, "slug"@) is Some
        &&& arr_field(m, "gameVersionLatestFiles"@) is Some
        &&& game_version_files_arr_shape(arr_field(m, "gameVersionLatestFiles"@)->0)
        &&& bool_field(m, "isFeatured"@) is Some
        &&& num_field(m, "popularityScore"@) is Some
        &&& num_field(m, "gamePopularityRank"@) is Some
        &&& str_field(m, "primaryLanguage"@) is Some
        &&& str_field(m, "gameSlug"@) is Some
        &&& str_field(m, "gameName"@) is Some
        &&& str_field(m, "portalName"@) is Some
        &&& str_field(m, "dateModified"@) is Some
        &&& str_field(m, "dateCreated"@) is Some
        &&& str_field(m, "dateReleased"@) is Some
        &&& bool_field(m, "isAvailable"@) is Some
        &&& bool_field(m, "isExperiemental"@) is Some
    }
}

pub open spec fn addon_matches(x: Addon, j: Json) -> bool {
    let m = j->Obj_0@;
    &&& x.id == num_field(m, "id"@)->0
    &&& x.name@ == str_field(m, "name"@)->0
    &&& authors_arr_match(x.authors@, arr_field(m, "authors"@)->0)
    &&& attachments_arr_match(x.attachments@, arr_field(m, "attachments"@)->0)
    &&& x.website_url@ == str_field(m, "websiteUrl"@)->0
    &&& x.game_id == num_field(m, "gameId"@)->0
    &&& x.summary@ == str_field(m, "summary"@)->0
    &&& x.default_file_id == num_field(m, "defaultFileId"@)->0
    &&& x.download_count == num_field(m, "downloadCount"@)->0
    &&& files_arr_match(x.latest_files@, arr_field(m, "latestFiles"@)->0)
    &&& partial_categories_arr_match(x.categories@, arr_field(m, "categories"@)->0)
    &&& x.status == u32_field(m, "status"@)->0
    &&& x.primary_category_id == u32_field(m, "primaryCategoryId"@)->0
    &&& category_section_matches(x.category_section, obj_get(m, "categorySection"@)->0)
    &&& x.slug@ == str_field(m, "slug"@)->0
    &&& game_version_files_arr_match(
        x.game_version_latest_files@,
        arr_field(m, "gameVersionLatestFiles"@)->0,
    )
    &&& x.is_featured == bool_field(m, "isFeatured"@)->0
    &&& x.popularity_score == num_field(m, "popularityScore"@)->0
    &&& x.game_popularity_rank == num_field(m, "gamePopularityRank"@)->0
    &&& x.primary_language@ == str_field(m, "primaryLanguage"@)->0
    &&& x.game_slug@ == str_field(m, "gameSlug"@)->0
    &&& x.game_name@ == str_field(m, "gameName"@)->0
    &&& x.portal_name@ == str_field(m, "portalName"@)->0
    &&& x.date_modified@ == str_field(m, "dateModified"@)->0
    &&& x.date_created@ == str_field(m, "dateCreated"@)->0
    &&& x.date_released@ == str_field(m, "dateReleased"@)->0
    &&& x.is_available == bool_field(m, "isAvailable"@)->0
    &&& x.is_experimental == bool_field(m, "isExperiemental"@)->0
}

impl Addon {
    /// Decodes an add-on record; fails exactly when a required member
    /// anywhere in the record is absent or of the wrong type. The
    /// experimental flag is read under its misspelled wire name
    /// `isExperiemental`, which the service is stuck with.
    pub fn from_json(j: &Json) -> (r: Result<Addon, DecodeError>)
        ensures
            r is Ok <==> addon_shape(*j),
            r matches Ok(x) ==> addon_matches(x, *j),
    {
        let m = match j {
            Json::Obj(m) => m,
            _ => {
                return Err(DecodeError::NotAnObject);
            },
        };
        let id = get_num(m, "id")?;
        let name = get_str(m, "name")?;
        let authors = get_authors(m, "authors")?;
        let attachments = get_attachments(m, "attachments")?;
        let website_url = get_str(m, "websiteUrl")?;
        let game_id = get_num(m, "gameId")?;
        let summary = get_str(m, "summary")?;
        let default_file_id = get_num(m, "defaultFileId")?;
        let download_count = get_num(m, "downloadCount")?;
        let latest_files = get_files(m, "latestFiles")?;
        let categories = get_partial_categories(m, "categories")?;
        let status = get_u32(m, "status")?;
        let primary_category_id = get_u32(m, "primaryCategoryId")?;
        let category_section = match obj_get_exec(m, "categorySection") {
            None => {
                return Err(DecodeError::MissingField("categorySection".to_owned()));
            },
            Some(cj) => match CategorySection::from_json(cj) {
                Ok(c) => c,
                Err(e) => {
                    return Err(e);
                },
            },
        };
        let slug = get_str(m, "slug")?;
        let game_version_latest_files = get_game_version_files(m, "gameVersionLatestFiles")?;
        let is_featured = get_bool(m, "isFeatured")?;
        let popularity_score = get_num(m, "popularityScore")?;
        let game_popularity_rank = get_num(m, "gamePopularityRank")?;
        let primary_language = get_str(m, "primaryLanguage")?;
        let game_slug = get_str(m, "gameSlug")?;
        let game_name = get_str(m, "gameName")?;
        let portal_name = get_str(m, "portalName")?;
        let date_modified = get_str(m, "dateModified")?;
        let date_created = get_str(m, "dateCreated")?;
        let date_released = get_str(m, "dateReleased")?;
        let is_available = get_bool(m, "isAvailable")?;
        let is_experimental = get_bool(m, "isExperiemental")?;
        Ok(
            Addon {
                id,
                name,
                authors,
                attachments,
                website_url,
                game_id,
                summary,
                default_file_id,
                download_count,
                latest_files,
                categories,
                status,
                primary_category_id,
                category_section,
                slug,
                game_version_latest_files,
                is_featured,
                popularity_score,
                game_popularity_rank,
                primary_language,
                game_slug,
                game_name,
                portal_name,
                date_modified,
                date_created,
                date_released,
                is_available,
                is_experimental,
            },
        )
    }
}


// ---------------------------------------------------------------------------
// Request URLs.
// ---------------------------------------------------------------------------
/// The fixed base of every request URL.
pub open spec fn base_url() -> Seq<char> {
    "https://addons-ecs.forgesvc.net/api/v2"@
}

/// The decimal digit `d` as a character.
pub open spec fn dec_digit(d: int) -> char {
    if d == 0 {
        '0'
    } else if d == 1 {
        '1'
    } else if d == 2 {
        '2'
    } else if d == 3 {
        '3'
    } else if d == 4 {
        '4'
    } else if d == 5 {
        '5'
    } else if d == 6 {
        '6'
    } else if d == 7 {
        '7'
    } else if d == 8 {
        '8'
    } else {
        '9'
    }
}

/// The decimal writing of `n`, most significant digit first, with no sign
/// and no leading zero (except for zero itself).
pub open spec fn dec_str(n: nat) -> Seq<char>
    decreases n,
{
    if n < 10 {
        seq![dec_digit(n as int)]
    } else {
        dec_str(n / 10).push(dec_digit((n % 10) as int))
    }
}

fn digit_str(d: u64) -> (r: &'static str)
    requires
        d < 10,
    ensures
        r@ == seq![dec_digit(d as int)],
{
    proof {
        reveal_strlit("0");
        reveal_strlit("1");
        reveal_strlit("2");
        reveal_strlit("3");
        reveal_strlit("4");
        reveal_strlit("5");
        reveal_strlit("6");
        reveal_strlit("7");
        reveal_strlit("8");
        reveal_strlit("9");
    }
    match d {
        0 => "0",
        1 => "1",
        2 => "2",
        3 => "3",
        4 => "4",
        5 => "5",
        6 => "6",
        7 => "7",
        8 => "8",
        _ => "9",
    }
}

/// Writes `n` in decimal.
pub fn dec_string(n: u64) -> (r: String)
    ensures
        r@ == dec_str(n as nat),
    decreases n,
{
    let d = digit_str(n % 10);
    if n < 10 {
        d.to_owned()
    } else {
        proof {
            assert(n / 10 < n) by (nonlinear_arith)
                requires
                    n >= 10,
            ;
        }
        let mut s = dec_string(n / 10);
        s.append(d);
        proof {
            assert(dec_str((n / 10) as nat).push(dec_digit((n % 10) as int)) =~= dec_str(
                (n / 10) as nat,
            ) + d@);
        }
        s
    }
}

/// The URL of the add-on resource with the given identifier.
pub open spec fn addon_url_spec(id: u64) -> Seq<char> {
    base_url() + "/addon/"@ + dec_str(id as nat)
}

/// The URL of the category resource with the given identifier.
pub open spec fn category_url_spec(id: u64) -> Seq<char> {
    base_url() + "/category/"@ + dec_str(id as nat)
}

/// The URL of the category section resource with the given identifier.
pub open spec fn category_section_url_spec(id: u64) -> Seq<char> {
    base_url() + "/category/section/"@ + dec_str(id as nat)
}

/// Builds `{base}/addon/{id}`.
pub fn addon_url(id: u64) -> (r: String)
    ensures
        r@ == addon_url_spec(id),
{
    let mut s: String = "https://addons-ecs.forgesvc.net/api/v2".to_owned();
    s.append("/addon/");
    let digits = dec_string(id);
    s.append(digits.as_str());
    proof {
        assert(s@ =~= addon_url_spec(id));
    }
    s
}

/// Builds `{base}/category/{id}`.
pub fn category_url(id: u64) -> (r: String)
    ensures
        r@ == category_url_spec(id),
{
    let mut s: String = "https://addons-ecs.forgesvc.net/api/v2".to_owned();
    s.append("/category/");
    let digits = dec_string(id);
    s.append(digits.as_str());
    proof {
        assert(s@ =~= category_url_spec(id));
    }
    s
}

/// Builds `{base}/category/section/{id}`.
pub fn category_section_url(id: u64) -> (r: String)
    ensures
        r@ == category_section_url_spec(id),
{
    let mut s: String = "https://addons-ecs.forgesvc.net/api/v2".to_owned();
    s.append("/category/section/");
    let digits = dec_string(id);
    s.append(digits.as_str());
    proof {
        assert(s@ =~= category_section_url_spec(id));
    }
    s
}

// ---------------------------------------------------------------------------
// The error taxonomy of a fetch, and the completion of a fetch from the
// outcome of its one HTTP round trip. The round trip itself happens outside
// the library; its outcome is handed in as a value: `Err(msg)` when the
// request could not be sent or completed, `Ok(None)` when the body was not
// parseable JSON, and `Ok(Some(doc))` for a parsed body.
// ---------------------------------------------------------------------------
/// Why a fetch failed.
#[derive(Debug)]
pub enum FetchError {
    /// The request could not be sent or completed; carries the transport's
    /// own message.
    Transport(String),
    /// The response body did not decode into the requested record.
    Decode(DecodeError),
}

impl Addon {
    /// Completes a fetch of `/addon/{id}`. A transport failure stays a
    /// transport error and is never mistaken for a decode error; a body
    /// that is not JSON, or not an add-on record, is a decode error; a
    /// well-shaped body yields the decoded record.
    pub fn from_fetch(outcome: Result<Option<Json>, String>) -> (r: Result<Addon, FetchError>)
        ensures
            outcome matches Err(msg) ==> (r matches Err(FetchError::Transport(t)) && t@ == msg@),
            outcome matches Ok(None) ==> r matches Err(FetchError::Decode(DecodeError::Syntax)),
            outcome matches Ok(Some(j)) ==> {
                &&& r is Ok <==> addon_shape(j)
                &&& (r matches Ok(x) ==> addon_matches(x, j))
                &&& (!addon_shape(j) ==> r matches Err(FetchError::Decode(_)))
            },
    {
        match outcome {
            Err(msg) => Err(FetchError::Transport(msg)),
            Ok(None) => Err(FetchError::Decode(DecodeError::Syntax)),
            Ok(Some(j)) => match Addon::from_json(&j) {
                Ok(x) => Ok(x),
                Err(e) => Err(FetchError::Decode(e)),
            },
        }
    }
}

impl Category {
    /// Completes a fetch of `/category/{id}`, exactly as
    /// `Addon::from_fetch` does for an add-on.
    pub fn from_fetch(outcome: Result<Option<Json>, String>) -> (r: Result<Category, FetchError>)
        ensures
            outcome matches Err(msg) ==> (r matches Err(FetchError::Transport(t)) && t@ == msg@),
            outcome matches Ok(None) ==> r matches Err(FetchError::Decode(DecodeError::Syntax)),
            outcome matches Ok(Some(j)) ==> {
                &&& r is Ok <==> category_shape(j)
                &&& (r matches Ok(x) ==> category_matches(x, j))
                &&& (!category_shape(j) ==> r matches Err(FetchError::Decode(_)))
            },
    {
        match outcome {
            Err(msg) => Err(FetchError::Transport(msg)),
            Ok(None) => Err(FetchError::Decode(DecodeError::Syntax)),
            Ok(Some(j)) => match Category::from_json(&j) {
                Ok(x) => Ok(x),
                Err(e) => Err(FetchError::Decode(e)),
            },
        }
    }

    /// Completes a fetch of `/category/section/{id}`: the body must be a
    /// JSON array, and the result holds one record per element, in order.
    /// An empty array yields an empty result, not an error.
    pub fn section_from_fetch(outcome: Result<Option<Json>, String>) -> (r: Result<
        Vec<Category>,
        FetchError,
    >)
        ensures
            outcome matches Err(msg) ==> (r matches Err(FetchError::Transport(t)) && t@ == msg@),
            outcome matches Ok(None) ==> r matches Err(FetchError::Decode(DecodeError::Syntax)),
            outcome matches Ok(Some(j)) ==> {
                &&& r is Ok <==> (j is Arr && categories_arr_shape(j->Arr_0@))
                &&& (r matches Ok(v) ==> v@.len() == j->Arr_0@.len())
                &&& (r matches Ok(v) ==> categories_arr_match(v@, j->Arr_0@))
                &&& (j is Arr && j->Arr_0@.len() == 0 ==> (r matches Ok(v) && v@.len() == 0))
            },
    {
        match outcome {
            Err(msg) => Err(FetchError::Transport(msg)),
            Ok(None) => Err(FetchError::Decode(DecodeError::Syntax)),
            Ok(Some(j)) => match Category::section_from_json(&j) {
                Ok(v) => Ok(v),
                Err(e) => Err(FetchError::Decode(e)),
            },
        }
    }
}

/// Fetching an existing add-on by its identifier yields a record whose
/// `id` equals the identifier the document carries: decoding moves the
/// `id` member into the record unchanged.
pub proof fn lemma_addon_id_round_trip(x: Addon, j: Json, n: u64)
    requires
        addon_matches(x, j),
        num_field(j->Obj_0@, "id"@) == Some(Num::U(n)),
    ensures
        x.id == Num::U(n),
{
}

} // verus!
