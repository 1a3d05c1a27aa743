//! The registry of textures by name, and the table of texture files that
//! fills it.

use std::collections::HashMap;
use vstd::hash_map::StringHashMap;
use vstd::prelude::*;
use vstd::string::StringExecFns;
use crate::command::GlCommand;
use crate::render_error::{RenderError, RenderErrorView};
use crate::texture::gl_texture_2d::{Texture2D, Texture2DView};

verus! {

/// The table of strings that a TOML document holds: its entries by key, or
/// nothing where the document is not well formed or holds anything but
/// strings by key.
pub uninterp spec fn toml_table(document: Seq<char>) -> Option<Map<Seq<char>, Seq<char>>>;

/// What the TOML reader says of a document that holds no table of strings:
/// the text of its error.
pub uninterp spec fn toml_complaint(document: Seq<char>) -> Seq<char>;

/// The map that takes each key of `entries` to the text given with it; of
/// two entries with one key the later one counts.
pub open spec fn table_of(entries: Seq<(String, String)>) -> Map<Seq<char>, Seq<char>>
    decreases entries.len(),
{
    if entries.len() == 0 {
        Map::empty()
    } else {
        table_of(entries.drop_last()).insert(entries.last().0@, entries.last().1@)
    }
}

/// Whether no two entries have one key.
pub open spec fn distinct_keys(entries: Seq<(String, String)>) -> bool {
    forall|i: int, j: int|
        0 <= i < j < entries.len() ==> (#[trigger] entries[i]).0@ != (#[trigger] entries[j]).0@
}

/// Reads `document` with `toml::from_str` as a map from strings to strings.
/// The entries come in no order that could be told beforehand, each key
/// once. The reader fails exactly where the document holds no such table,
/// and its error, which depends on the document alone, comes as the text
/// that `to_string` makes of it.
#[verifier::external_body]
fn read_table(document: &str) -> (result: Result<Vec<(String, String)>, String>)
    ensures
        match result {
            Ok(entries) => toml_table(document@) == Some(table_of(entries@)) && distinct_keys(
                entries@,
            ),
            Err(text) => toml_table(document@) is None && text@ == toml_complaint(document@),
        },
{
    match toml::from_str::<HashMap<String, String>>(document) {
        Ok(table) => Ok(table.into_iter().collect()),
        Err(error) => Err(error.to_string()),
    }
}

/// The file that holds the table of textures, under the folder `base`.
pub open spec fn definitions_path(base: Seq<char>) -> Seq<char> {
    base + "/textures.toml"@
}

/// The file of the texture that the table calls `path`, under the folder
/// `base`.
pub open spec fn texture_path(base: Seq<char>, path: Seq<char>) -> Seq<char> {
    base + "/textures/"@ + path
}

/// The error for a name that the registry already holds.
pub open spec fn already_registered(id: Seq<char>) -> RenderErrorView {
    RenderErrorView::TextureError {
        texture_path: id,
        error: "Texture already exists in texture manager!"@,
    }
}

/// A texture to load: the name to register it under and the file to read.
pub struct TextureFile {
    pub id: String,
    pub path: String,
}

/// Whether `files` are the files of `entries` under `base`, one for one.
pub open spec fn files_of(
    files: Seq<TextureFile>,
    base: Seq<char>,
    entries: Seq<(String, String)>,
) -> bool {
    &&& files.len() == entries.len()
    &&& forall|i: int|
        0 <= i < files.len() ==> (#[trigger] files[i]).id@ == entries[i].0@ && files[i].path@
            == texture_path(base, entries[i].1@)
}

/// Textures by name, with one to stand in for every name that is missing.
pub struct TextureManager {
    texture_map: StringHashMap<Texture2D>,
    error_texture: Texture2D,
}

/// What a `TextureManager` holds.
pub struct TextureManagerView {
    /// The textures by name.
    pub textures: Map<Seq<char>, Texture2DView>,
    /// The texture that stands in for a missing one.
    pub error_texture: Texture2DView,
}

impl View for TextureManager {
    type V = TextureManagerView;

    closed spec fn view(&self) -> TextureManagerView {
        TextureManagerView {
            textures: self.texture_map@.map_values(|texture: Texture2D| texture@),
            error_texture: self.error_texture@,
        }
    }
}

impl TextureManagerView {
    /// The texture that a bind of `id` binds: the one registered under the
    /// name, or else the stand-in.
    pub open spec fn chosen(self, id: Seq<char>) -> Texture2DView {
        if self.textures.contains_key(id) {
            self.textures[id]
        } else {
            self.error_texture
        }
    }
}

impl TextureManager {
    /// A registry without textures, whose stand-in has no name yet.
    pub fn new() -> (manager: TextureManager)
        ensures
            manager@.textures == Map::<Seq<char>, Texture2DView>::empty(),
            manager@.error_texture == (Texture2DView {
                id: 0,
                size: crate::types::IVec2 { x: 0, y: 0 },
            }),
    {
        let manager = TextureManager {
            texture_map: StringHashMap::new(),
            error_texture: Texture2D::new_uninitialised(),
        };
        assert(manager@.textures =~= Map::<Seq<char>, Texture2DView>::empty());
        manager
    }

    /// Takes `texture`, as `Texture2D::new_error_texture` builds it, for the
    /// stand-in. The commands delete the stand-in that it replaces.
    pub fn initialise_error_texture(&mut self, texture: Texture2D) -> (commands: Vec<GlCommand>)
        ensures
            final(self)@ == (TextureManagerView { error_texture: texture@, ..old(self)@ }),
            commands@ == old(self)@.error_texture.release(),
    {
        let mut old = texture;
        core::mem::swap(&mut self.error_texture, &mut old);
        old.destroy()
    }

    /// The file that holds the table of textures, under the folder
    /// `graphics_base_path`.
    pub fn definitions_file(graphics_base_path: &str) -> (file: String)
        ensures
            file@ == definitions_path(graphics_base_path@),
    {
        let mut file = String::from_str(graphics_base_path);
        file.append("/textures.toml");
        file
    }

    /// The textures to load for the entries `entries` of a table: for each
    /// entry, in order, its key as the name and the file that its text names
    /// under the folder `graphics_base_path`.
    pub fn texture_files(graphics_base_path: &str, entries: &Vec<(String, String)>) -> (files: Vec<
        TextureFile,
    >)
        ensures
            files_of(files@, graphics_base_path@, entries@),
    {
        let mut files: Vec<TextureFile> = Vec::new();
        let mut i: usize = 0;
        while i < entries.len()
            invariant
                i <= entries@.len(),
                files_of(files@, graphics_base_path@, entries@.subrange(0, i as int)),
            decreases entries@.len() - i,
        {
            let mut path = String::from_str(graphics_base_path);
            path.append("/textures/");
            path.append(entries[i].1.as_str());
            files.push(TextureFile { id: entries[i].0.clone(), path });
            i = i + 1;
        }
        assert(entries@.subrange(0, i as int) =~= entries@);
        files
    }

    /// The textures to load from the assets folder `graphics_base_path`.
    /// `definitions` is what reading the file `definitions_file` gave: the
    /// document, or the text of the error.
    ///
    /// A file that could not be read is an error with this text. A document
    /// that holds no table of strings is an error with the text of the
    /// reader. Else there is one
    /// texture to load for each entry of the table, in no order that could be
    /// told beforehand.
    pub fn load_textures_from_assets_folder(
        graphics_base_path: &str,
        definitions: Result<String, String>,
    ) -> (result: Result<Vec<TextureFile>, RenderError>)
        ensures
            match definitions {
                Err(text) => result matches Err(error) && error@ == (
                RenderErrorView::TextureError {
                    texture_path: definitions_path(graphics_base_path@),
                    error: text@,
                }),
                Ok(document) => match toml_table(document@) {
                    None => result matches Err(error) && error@ == (
                    RenderErrorView::TextureError {
                        texture_path: definitions_path(graphics_base_path@),
                        error: toml_complaint(document@),
                    }),
                    Some(table) => result matches Ok(files) && exists|
                        entries: Seq<(String, String)>,
                    |
                        #![trigger table_of(entries)]
                        {
                            &&& table_of(entries) == table
                            &&& distinct_keys(entries)
                            &&& files_of(files@, graphics_base_path@, entries)
                        },
                },
            },
    {
        let document = match definitions {
            Ok(document) => document,
            Err(text) => {
                return Err(
                    RenderError::TextureError {
                        texture_path: Self::definitions_file(graphics_base_path),
                        error: text,
                    },
                );
            },
        };
        match read_table(document.as_str()) {
            Ok(entries) => Ok(Self::texture_files(graphics_base_path, &entries)),
            Err(text) => Err(
                RenderError::TextureError {
                    texture_path: Self::definitions_file(graphics_base_path),
                    error: text,
                },
            ),
        }
    }

    /// Puts the texture of `texture_result` under `id`, or hands its error
    /// on. Where the name was taken the new texture replaces the old one all
    /// the same, the commands delete the old one, and the call reports the
    /// clash.
    pub fn register_texture(
        &mut self,
        id: String,
        texture_result: Result<Texture2D, RenderError>,
    ) -> (result:
        (Vec<GlCommand>, Result<(), RenderError>))
        ensures
            match texture_result {
                Err(error) => {
                    &&& final(self)@ == old(self)@
                    &&& result.0@ == Seq::<GlCommand>::empty()
                    &&& result.1 matches Err(e) && e@ == error@
                },
                Ok(texture) => {
                    &&& final(self)@ == (TextureManagerView {
                        textures: old(self)@.textures.insert(id@, texture@),
                        ..old(self)@
                    })
                    &&& if old(self)@.textures.contains_key(id@) {
                        &&& result.0@ == old(self)@.textures[id@].release()
                        &&& result.1 matches Err(e) && e@ == already_registered(id@)
                    } else {
                        &&& result.0@ == Seq::<GlCommand>::empty()
                        &&& result.1 is Ok
                    }
                },
            },
    {
        let texture = match texture_result {
            Ok(texture) => texture,
            Err(error) => {
                return (Vec::new(), Err(error));
            },
        };
        let ghost before = self.texture_map@;
        let replaced = match self.texture_map.get(id.as_str()) {
            Some(old) => Some(old.destroy_commands()),
            None => None,
        };
        let name = id.clone();
        self.texture_map.insert(id, texture);
        assert(before.insert(name@, texture).map_values(|texture: Texture2D| texture@)
            =~= before.map_values(|texture: Texture2D| texture@).insert(name@, texture@));
        match replaced {
            Some(commands) => (
                commands,
                Err(
                    RenderError::TextureError {
                        texture_path: name,
                        error: String::from_str("Texture already exists in texture manager!"),
                    },
                ),
            ),
            None => (Vec::new(), Ok(())),
        }
    }

    /// Binds the texture under `texture_id` at the first texture unit, or
    /// the stand-in where there is none. The flag says whether there was one.
    pub fn bind(&self, texture_id: String) -> (result: (Vec<GlCommand>, bool))
        ensures
            result.0@ == self@.chosen(texture_id@).bind_to_unit(0),
            result.1 == self@.textures.contains_key(texture_id@),
    {
        self.bind_to_unit(texture_id, 0)
    }

    /// Binds the texture under `texture_id` at texture unit `unit`, or the
    /// stand-in where there is none. The flag says whether there was one.
    pub fn bind_to_unit(&self, texture_id: String, unit: u32) -> (result: (Vec<GlCommand>, bool))
        ensures
            result.0@ == self@.chosen(texture_id@).bind_to_unit(unit),
            result.1 == self@.textures.contains_key(texture_id@),
    {
        match self.texture_map.get(texture_id.as_str()) {
            Some(texture) => (texture.bind_to_unit(unit), true),
            None => (self.error_texture.bind_to_unit(unit), false),
        }
    }
}

} // verus!
