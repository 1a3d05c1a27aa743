//! A one-dimensional texture of four 8-bit channels.

use vstd::prelude::*;
use crate::command::{GlCommand, GlQuery};
use crate::constants::{RGBA, TEXTURE_1D, UNSIGNED_BYTE};
use crate::plan::{Construction, Outline};
use crate::texture::common::{
    bind_at, bind_first, filters, generation_refused, repeat,
};

verus! {

/// A one-dimensional texture of four 8-bit channels.
pub struct Texture1D {
    id: u32,
    size: i32,
}

/// What a `Texture1D` holds.
pub struct Texture1DView {
    /// The name of the texture; 0 while it has none.
    pub id: u32,
    /// The size of the data last given.
    pub size: i32,
}

impl View for Texture1D {
    type V = Texture1DView;

    closed spec fn view(&self) -> Texture1DView {
        Texture1DView { id: self.id, size: self.size }
    }
}

impl Texture1DView {
    /// The commands that bind the texture at the first texture unit.
    pub open spec fn bind(self) -> Seq<GlCommand> {
        bind_first(TEXTURE_1D, self.id)
    }

    /// The commands that bind the texture at texture unit `unit`.
    pub open spec fn bind_to_unit(self, unit: u32) -> Seq<GlCommand> {
        bind_at(TEXTURE_1D, self.id, unit)
    }

    /// The commands that give the texture the data of a call: bound at the
    /// first unit, repeating outside its edges, filtered smoothly or to the nearest texel, and
    /// filled from the data list.
    pub open spec fn upload(self, smooth: bool) -> Seq<GlCommand> {
        self.bind() + repeat(TEXTURE_1D) + filters(TEXTURE_1D, smooth) + seq![
            GlCommand::TexImage1D {
                internal_format: RGBA,
                width: self.size,
                format: RGBA,
                data_type: UNSIGNED_BYTE,
            },
        ]
    }

    /// The commands that delete the texture.
    pub open spec fn release(self) -> Seq<GlCommand> {
        seq![GlCommand::DeleteTexture { texture: self.id }]
    }
}

impl Texture1D {
    /// The step of `set_data` after the answers `r`, for `data_len` elements of
    /// data.
    ///
    /// A texture that has a name keeps it and
    /// takes the data at once. One without a name asks for one first, and fails
    /// where the driver gives none.
    pub open spec fn set_data_from(
        self,
        data_len: nat,
        size: i32,
        aliased: bool,
        r: Seq<u32>,
    ) -> Outline<
        Texture1DView,
    > {
        if self@.id != 0 {
            Outline::Built {
                commands: (Texture1DView { id: self@.id, size }).upload(aliased),
                value: Texture1DView { id: self@.id, size },
            }
        } else if r.len() == 0 {
            Outline::Ask { commands: seq![], query: GlQuery::GenTexture }
        } else if r[0] == 0 {
            Outline::Failed { commands: seq![], error: generation_refused() }
        } else {
            Outline::Built {
                commands: (Texture1DView { id: r[0], size }).upload(aliased),
                value: Texture1DView { id: r[0], size },
            }
        }
    }

    /// A texture without a name.
    pub fn new() -> (texture: Texture1D)
        ensures
            texture@ == (Texture1DView { id: 0, size: 0 }),
    {
        Texture1D { id: 0, size: 0 }
    }

    /// One step of giving the texture `data` of the size `size`, after the driver's answers
    /// `replies`. The texture that is built takes the place of this one.
    pub fn set_data(
        &self,
        data: &Vec<u8>,
        size: i32,
        aliased: bool,
        replies: &Vec<u32>,
    ) -> (step: Construction<Texture1D>)
        ensures
            step.outline() == self.set_data_from(data@.len(), size, aliased, replies@),
    {
        if self.id != 0 {
            return Construction::Built {
                commands: Self::upload_commands(self.id, size, aliased),
                value: Texture1D { id: self.id, size },
            };
        }
        if replies.len() == 0 {
            return Construction::Ask { commands: Vec::new(), query: GlQuery::GenTexture };
        }
        let id = replies[0];
        if id == 0 {
            return Construction::Failed {
                commands: Vec::new(),
                error: crate::texture::common::generation_error(),
            };
        }
        Construction::Built {
            commands: Self::upload_commands(id, size, aliased),
            value: Texture1D { id, size },
        }
    }

    /// The commands of `upload` for a texture of this name and size.
    fn upload_commands(id: u32, size: i32, smooth: bool) -> (commands: Vec<GlCommand>)
        ensures
            commands@ == (Texture1DView { id, size }).upload(smooth),
    {
        let mut commands = crate::texture::common::bind_first_commands(TEXTURE_1D, id);
        crate::plan::extend(&mut commands, crate::texture::common::repeat_commands(TEXTURE_1D));
        crate::plan::extend(
            &mut commands,
            crate::texture::common::filter_commands(TEXTURE_1D, smooth),
        );
        commands.push(
            GlCommand::TexImage1D {
                internal_format: RGBA,
                width: size,
                format: RGBA,
                data_type: UNSIGNED_BYTE,
            },
        );
        assert(commands@ =~= (Texture1DView { id, size }).upload(smooth));
        commands
    }

    /// The name of the texture; 0 while it has none.
    pub fn id(&self) -> (id: u32)
        ensures
            id == self@.id,
    {
        self.id
    }

    /// The size of the data last given.
    pub fn size(&self) -> (size: i32)
        ensures
            size == self@.size,
    {
        self.size
    }

    /// Binds the texture at the first texture unit.
    pub fn bind(&self) -> (commands: Vec<GlCommand>)
        ensures
            commands@ == self@.bind(),
    {
        crate::texture::common::bind_first_commands(TEXTURE_1D, self.id)
    }

    /// Binds the texture at texture unit `unit`.
    pub fn bind_to_unit(&self, unit: u32) -> (commands: Vec<GlCommand>)
        ensures
            commands@ == self@.bind_to_unit(unit),
    {
        crate::texture::common::bind_at_commands(TEXTURE_1D, self.id, unit)
    }

    /// Gives the texture up: the command deletes it.
    pub fn destroy(self) -> (commands: Vec<GlCommand>)
        ensures
            commands@ == self@.release(),
    {
        vec![GlCommand::DeleteTexture { texture: self.id }]
    }
}

} // verus!
