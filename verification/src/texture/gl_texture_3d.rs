//! A three-dimensional texture of four 8-bit channels.

use vstd::prelude::*;
use crate::command::{GlCommand, GlQuery};
use crate::constants::{RGBA, TEXTURE_3D, UNSIGNED_BYTE};
use crate::plan::{Construction, Outline};
use crate::texture::common::{
    bind_at, bind_first, filters, generation_refused, repeat,
};
use crate::types::IVec3;

verus! {

/// A three-dimensional texture of four 8-bit channels.
pub struct Texture3D {
    id: u32,
    size: IVec3,
}

/// What a `Texture3D` holds.
pub struct Texture3DView {
    /// The name of the texture; 0 while it has none.
    pub id: u32,
    /// The size of the data last given.
    pub size: IVec3,
}

impl View for Texture3D {
    type V = Texture3DView;

    closed spec fn view(&self) -> Texture3DView {
        Texture3DView { id: self.id, size: self.size }
    }
}

impl Texture3DView {
    /// The commands that bind the texture at the first texture unit.
    pub open spec fn bind(self) -> Seq<GlCommand> {
        bind_first(TEXTURE_3D, self.id)
    }

    /// The commands that bind the texture at texture unit `unit`.
    pub open spec fn bind_to_unit(self, unit: u32) -> Seq<GlCommand> {
        bind_at(TEXTURE_3D, self.id, unit)
    }

    /// The commands that give the texture the data of a call: bound at the
    /// first unit, repeating outside its edges, filtered smoothly or to the nearest texel, and
    /// filled from the data list.
    pub open spec fn upload(self, smooth: bool) -> Seq<GlCommand> {
        self.bind() + repeat(TEXTURE_3D) + filters(TEXTURE_3D, smooth) + seq![
            GlCommand::TexImage3D {
                internal_format: RGBA,
                width: self.size.x,
                height: self.size.y,
                layers: self.size.z,
                format: RGBA,
                data_type: UNSIGNED_BYTE,
            },
        ]
    }

    /// The commands that delete the texture, if it has a name.
    pub open spec fn release(self) -> Seq<GlCommand> {
        if self.id == 0 {
            seq![]
        } else {
            seq![GlCommand::DeleteTexture { texture: self.id }]
        }
    }
}

impl Texture3D {
    /// The step of `new_from_raw_data` after the answers `r`: a new texture
    /// asks for a name, fails where the driver gives none, and else takes the
    /// data.
    pub open spec fn new_from(size: IVec3, antialiased: bool, r: Seq<u32>) -> Outline<
        Texture3DView,
    > {
        if r.len() == 0 {
            Outline::Ask { commands: seq![], query: GlQuery::GenTexture }
        } else if r[0] == 0 {
            Outline::Failed { commands: seq![], error: generation_refused() }
        } else {
            Outline::Built {
                commands: (Texture3DView { id: r[0], size }).upload(antialiased),
                value: Texture3DView { id: r[0], size },
            }
        }
    }

    /// A texture without a name.
    pub fn new_uninitialised() -> (texture: Texture3D)
        ensures
            texture@ == (Texture3DView { id: 0, size: IVec3 { x: 0, y: 0, z: 0 } }),
    {
        Texture3D { id: 0, size: IVec3 { x: 0, y: 0, z: 0 } }
    }

    /// One step of making a texture of the size `size` out of `data`, four
    /// bytes for each texel, after the driver's answers `replies`.
    pub fn new_from_raw_data(
        data: &Vec<u8>,
        size: IVec3,
        antialiased: bool,
        replies: &Vec<u32>,
    ) -> (step: Construction<Texture3D>)
        ensures
            step.outline() == Self::new_from(size, antialiased, replies@),
    {
        if replies.len() == 0 {
            return Construction::Ask { commands: Vec::new(), query: GlQuery::GenTexture };
        }
        let id = replies[0];
        if id == 0 {
            return Construction::Failed {
                commands: Vec::new(),
                error: crate::texture::common::generation_error(),
            };
        }
        Construction::Built {
            commands: Self::upload_commands(id, size, antialiased),
            value: Texture3D { id, size },
        }
    }

    /// The commands of `upload` for a texture of this name and size.
    fn upload_commands(id: u32, size: IVec3, smooth: bool) -> (commands: Vec<GlCommand>)
        ensures
            commands@ == (Texture3DView { id, size }).upload(smooth),
    {
        let mut commands = crate::texture::common::bind_first_commands(TEXTURE_3D, id);
        crate::plan::extend(&mut commands, crate::texture::common::repeat_commands(TEXTURE_3D));
        crate::plan::extend(
            &mut commands,
            crate::texture::common::filter_commands(TEXTURE_3D, smooth),
        );
        commands.push(
            GlCommand::TexImage3D {
                internal_format: RGBA,
                width: size.x,
                height: size.y,
                layers: size.z,
                format: RGBA,
                data_type: UNSIGNED_BYTE,
            },
        );
        assert(commands@ =~= (Texture3DView { id, size }).upload(smooth));
        commands
    }

    /// The name of the texture; 0 while it has none.
    pub fn id(&self) -> (id: u32)
        ensures
            id == self@.id,
    {
        self.id
    }

    /// The size of the data last given.
    pub fn size(&self) -> (size: IVec3)
        ensures
            size == self@.size,
    {
        self.size
    }

    /// Binds the texture at the first texture unit.
    pub fn bind(&self) -> (commands: Vec<GlCommand>)
        ensures
            commands@ == self@.bind(),
    {
        crate::texture::common::bind_first_commands(TEXTURE_3D, self.id)
    }

    /// Binds the texture at texture unit `unit`.
    pub fn bind_to_unit(&self, unit: u32) -> (commands: Vec<GlCommand>)
        ensures
            commands@ == self@.bind_to_unit(unit),
    {
        crate::texture::common::bind_at_commands(TEXTURE_3D, self.id, unit)
    }

    /// Gives the texture up: the command deletes it, if it has a name.
    pub fn destroy(self) -> (commands: Vec<GlCommand>)
        ensures
            commands@ == self@.release(),
    {
        if self.id == 0 {
            Vec::new()
        } else {
            vec![GlCommand::DeleteTexture { texture: self.id }]
        }
    }
}

} // verus!
