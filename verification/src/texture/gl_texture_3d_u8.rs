//! A three-dimensional texture of unsigned 8-bit integers.

use vstd::prelude::*;
use crate::command::{GlCommand, GlQuery};
use crate::constants::{R8UI, RED_INTEGER, TEXTURE_3D, UNPACK_ALIGNMENT, UNSIGNED_BYTE};
use crate::plan::{Construction, Outline};
use crate::texture::common::{
    bind_at, bind_first, filters, generation_refused, repeat, dimensions_refused, fits
};
use crate::types::IVec3;

verus! {

/// A three-dimensional texture of unsigned 8-bit integers.
pub struct Texture3Du8 {
    id: u32,
    size: IVec3,
}

/// What a `Texture3Du8` holds.
pub struct Texture3Du8View {
    /// The name of the texture; 0 while it has none.
    pub id: u32,
    /// The size of the data last given.
    pub size: IVec3,
}

impl View for Texture3Du8 {
    type V = Texture3Du8View;

    closed spec fn view(&self) -> Texture3Du8View {
        Texture3Du8View { id: self.id, size: self.size }
    }
}

impl Texture3Du8View {
    /// The commands that bind the texture at the first texture unit.
    pub open spec fn bind(self) -> Seq<GlCommand> {
        bind_first(TEXTURE_3D, self.id)
    }

    /// The commands that bind the texture at texture unit `unit`.
    pub open spec fn bind_to_unit(self, unit: u32) -> Seq<GlCommand> {
        bind_at(TEXTURE_3D, self.id, unit)
    }

    /// The commands that give the texture the data of a call: bound at the
    /// first unit, repeating outside its edges, filtered to the nearest
    /// texel, and filled from the data list, whose rows follow one another
    /// byte by byte, without padding to a multiple of four.
    pub open spec fn upload(self) -> Seq<GlCommand> {
        self.bind() + repeat(TEXTURE_3D) + filters(TEXTURE_3D, false) + seq![
            GlCommand::PixelStorei { parameter: UNPACK_ALIGNMENT, number: 1 },
            GlCommand::TexImage3D {
                internal_format: R8UI,
                width: self.size.x,
                height: self.size.y,
                layers: self.size.z,
                format: RED_INTEGER,
                data_type: UNSIGNED_BYTE,
            },
        ]
    }

    /// The commands that delete the texture.
    pub open spec fn release(self) -> Seq<GlCommand> {
        seq![GlCommand::DeleteTexture { texture: self.id }]
    }
}

impl Texture3Du8 {
    /// The step of `set_data` after the answers `r`, for `data_len` elements of
    /// data.
    ///
    /// Data that does not have one element for each texel of the size is
    /// refused before anything else. A texture that has a name keeps it and
    /// takes the data at once. One without a name asks for one first, and fails
    /// where the driver gives none.
    pub open spec fn set_data_from(self, data_len: nat, size: IVec3, r: Seq<u32>) -> Outline<
        Texture3Du8View,
    > {
        if !fits(data_len, size.x * size.y * size.z) {
            Outline::Failed { commands: seq![], error: dimensions_refused() }
        } else if self@.id != 0 {
            Outline::Built {
                commands: (Texture3Du8View { id: self@.id, size }).upload(),
                value: Texture3Du8View { id: self@.id, size },
            }
        } else if r.len() == 0 {
            Outline::Ask { commands: seq![], query: GlQuery::GenTexture }
        } else if r[0] == 0 {
            Outline::Failed { commands: seq![], error: generation_refused() }
        } else {
            Outline::Built {
                commands: (Texture3Du8View { id: r[0], size }).upload(),
                value: Texture3Du8View { id: r[0], size },
            }
        }
    }

    /// A texture without a name.
    pub fn new() -> (texture: Texture3Du8)
        ensures
            texture@ == (Texture3Du8View { id: 0, size: IVec3 { x: 0, y: 0, z: 0 } }),
    {
        Texture3Du8 { id: 0, size: IVec3 { x: 0, y: 0, z: 0 } }
    }

    /// One step of giving the texture `data` of the size `size`, after the driver's answers
    /// `replies`. The texture that is built takes the place of this one.
    pub fn set_data(
        &self,
        data: &Vec<u8>,
        size: IVec3,
        replies: &Vec<u32>,
    ) -> (step: Construction<Texture3Du8>)
        ensures
            step.outline() == self.set_data_from(data@.len(), size, replies@),
    {
        if !crate::texture::common::holds(data.len(), size.x, size.y, size.z) {
            return Construction::Failed {
                commands: Vec::new(),
                error: crate::texture::common::dimensions_error(),
            };
        }
        if self.id != 0 {
            return Construction::Built {
                commands: Self::upload_commands(self.id, size),
                value: Texture3Du8 { id: self.id, size },
            };
        }
        if replies.len() == 0 {
            return Construction::Ask { commands: Vec::new(), query: GlQuery::GenTexture };
        }
        let id = replies[0];
        if id == 0 {
            return Construction::Failed {
                commands: Vec::new(),
                error: crate::texture::common::generation_error(),
            };
        }
        Construction::Built {
            commands: Self::upload_commands(id, size),
            value: Texture3Du8 { id, size },
        }
    }

    /// The commands of `upload` for a texture of this name and size.
    fn upload_commands(id: u32, size: IVec3) -> (commands: Vec<GlCommand>)
        ensures
            commands@ == (Texture3Du8View { id, size }).upload(),
    {
        let mut commands = crate::texture::common::bind_first_commands(TEXTURE_3D, id);
        crate::plan::extend(&mut commands, crate::texture::common::repeat_commands(TEXTURE_3D));
        crate::plan::extend(
            &mut commands,
            crate::texture::common::filter_commands(TEXTURE_3D, false),
        );
        commands.push(GlCommand::PixelStorei { parameter: UNPACK_ALIGNMENT, number: 1 });
        commands.push(
            GlCommand::TexImage3D {
                internal_format: R8UI,
                width: size.x,
                height: size.y,
                layers: size.z,
                format: RED_INTEGER,
                data_type: UNSIGNED_BYTE,
            },
        );
        assert(commands@ =~= (Texture3Du8View { id, size }).upload());
        commands
    }

    /// The name of the texture; 0 while it has none.
    pub fn id(&self) -> (id: u32)
        ensures
            id == self@.id,
    {
        self.id
    }

    /// The size of the data last given.
    pub fn size(&self) -> (size: IVec3)
        ensures
            size == self@.size,
    {
        self.size
    }

    /// Binds the texture at the first texture unit.
    pub fn bind(&self) -> (commands: Vec<GlCommand>)
        ensures
            commands@ == self@.bind(),
    {
        crate::texture::common::bind_first_commands(TEXTURE_3D, self.id)
    }

    /// Binds the texture at texture unit `unit`.
    pub fn bind_to_unit(&self, unit: u32) -> (commands: Vec<GlCommand>)
        ensures
            commands@ == self@.bind_to_unit(unit),
    {
        crate::texture::common::bind_at_commands(TEXTURE_3D, self.id, unit)
    }

    /// Gives the texture up: the command deletes it.
    pub fn destroy(self) -> (commands: Vec<GlCommand>)
        ensures
            commands@ == self@.release(),
    {
        vec![GlCommand::DeleteTexture { texture: self.id }]
    }
}

} // verus!
