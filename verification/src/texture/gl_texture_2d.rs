//! A two-dimensional texture of four 8-bit channels.

use vstd::prelude::*;
use crate::command::{GlCommand, GlQuery};
use crate::constants::{RGBA, TEXTURE_2D, UNSIGNED_BYTE};
use crate::plan::{Construction, Outline};
use crate::texture::common::{
    bind_at, bind_first, filters, generation_refused, repeat,
};
use crate::types::IVec2;

verus! {

/// An image of `rows` rows of `row_len` bytes each with its rows in the
/// opposite order: the last row first.
pub open spec fn rows_reversed(data: Seq<u8>, row_len: int, rows: int) -> Seq<u8> {
    Seq::new(data.len(), |i: int| data[(rows - 1 - i / row_len) * row_len + i % row_len])
}

/// Whether `data` holds an image of the size `size` with four bytes to the
/// texel, no more and no less.
pub open spec fn holds_image(data: Seq<u8>, size: IVec2) -> bool {
    size.x >= 0 && size.y >= 0 && data.len() == 4 * size.x * size.y
}

/// Turns an image of four 8-bit channels upside down with
/// `image::imageops::flip_vertical_in_place`, which swaps every texel with
/// the one as far from the bottom as it is from the top. The bytes go into
/// an image buffer of the `image` crate, by `RgbaImage::from_vec`, and come
/// out of it again, by `into_raw`. The buffer takes the bytes where four
/// times the width, and that times the height, fit the machine word and are
/// no more than there are bytes.
#[verifier::external_body]
fn flip_vertical(data: Vec<u8>, width: u32, height: u32) -> (flipped: Vec<u8>)
    requires
        4 * width <= usize::MAX,
        data@.len() == 4 * width * height,
    ensures
        flipped@ == rows_reversed(data@, 4 * width, height as int),
{
    let mut image = image::RgbaImage::from_vec(width, height, data).unwrap();
    image::imageops::flip_vertical_in_place(&mut image);
    image.into_raw()
}

/// The texels of the stand-in texture.
pub open spec fn error_image() -> Seq<u8> {
    seq![0u8, 0, 0, 255, 255, 255, 0, 255, 0, 0, 0, 255, 255, 255, 0, 255]
}

/// A two-dimensional texture of four 8-bit channels.
pub struct Texture2D {
    id: u32,
    size: IVec2,
}

/// What a `Texture2D` holds.
pub struct Texture2DView {
    /// The name of the texture; 0 while it has none.
    pub id: u32,
    /// The size of the data last given.
    pub size: IVec2,
}

impl View for Texture2D {
    type V = Texture2DView;

    closed spec fn view(&self) -> Texture2DView {
        Texture2DView { id: self.id, size: self.size }
    }
}

impl Texture2DView {
    /// The commands that bind the texture at the first texture unit.
    pub open spec fn bind(self) -> Seq<GlCommand> {
        bind_first(TEXTURE_2D, self.id)
    }

    /// The commands that bind the texture at texture unit `unit`.
    pub open spec fn bind_to_unit(self, unit: u32) -> Seq<GlCommand> {
        bind_at(TEXTURE_2D, self.id, unit)
    }

    /// The commands that give the texture the data of a call: bound at the
    /// first unit, repeating outside its edges, filtered smoothly or to the nearest texel, and
    /// filled from the data list.
    pub open spec fn upload(self, smooth: bool) -> Seq<GlCommand> {
        self.bind() + repeat(TEXTURE_2D) + filters(TEXTURE_2D, smooth) + seq![
            GlCommand::TexImage2DData {
                internal_format: RGBA,
                width: self.size.x,
                height: self.size.y,
                format: RGBA,
                data_type: UNSIGNED_BYTE,
            },
        ]
    }

    /// The commands that delete the texture, if it has a name.
    pub open spec fn release(self) -> Seq<GlCommand> {
        if self.id == 0 {
            seq![]
        } else {
            seq![GlCommand::DeleteTexture { texture: self.id }]
        }
    }
}

impl Texture2D {
    /// The step of `new_from_raw_data` after the answers `r`: a new texture
    /// asks for a name, fails where the driver gives none, and else takes the
    /// data.
    pub open spec fn new_from(size: IVec2, antialiased: bool, r: Seq<u32>) -> Outline<
        Texture2DView,
    > {
        if r.len() == 0 {
            Outline::Ask { commands: seq![], query: GlQuery::GenTexture }
        } else if r[0] == 0 {
            Outline::Failed { commands: seq![], error: generation_refused() }
        } else {
            Outline::Built {
                commands: (Texture2DView { id: r[0], size }).upload(antialiased),
                value: Texture2DView { id: r[0], size },
            }
        }
    }

    /// A texture without a name.
    pub fn new_uninitialised() -> (texture: Texture2D)
        ensures
            texture@ == (Texture2DView { id: 0, size: IVec2 { x: 0, y: 0 } }),
    {
        Texture2D { id: 0, size: IVec2 { x: 0, y: 0 } }
    }

    /// One step of making a texture of the size `size` out of `data`, four
    /// bytes for each texel, after the driver's answers `replies`.
    pub fn new_from_raw_data(
        data: &Vec<u8>,
        size: IVec2,
        antialiased: bool,
        replies: &Vec<u32>,
    ) -> (step: Construction<Texture2D>)
        ensures
            step.outline() == Self::new_from(size, antialiased, replies@),
    {
        if replies.len() == 0 {
            return Construction::Ask { commands: Vec::new(), query: GlQuery::GenTexture };
        }
        let id = replies[0];
        if id == 0 {
            return Construction::Failed {
                commands: Vec::new(),
                error: crate::texture::common::generation_error(),
            };
        }
        Construction::Built {
            commands: Self::upload_commands(id, size, antialiased),
            value: Texture2D { id, size },
        }
    }

    /// The texels of the texture that stands in for one that could not be
    /// read: two by two, black and yellow in turn, four bytes each.
    pub fn error_pixels() -> (data: Vec<u8>)
        ensures
            data@ == error_image(),
    {
        vec![0, 0, 0, 255, 255, 255, 0, 255, 0, 0, 0, 255, 255, 255, 0, 255]
    }

    /// One step of making the texture that stands in for one that could not
    /// be read, after the driver's answers `replies`. Its commands take the
    /// texels of `error_pixels` as their data.
    pub fn new_error_texture(replies: &Vec<u32>) -> (step: Construction<Texture2D>)
        ensures
            step.outline() == Self::new_from(IVec2 { x: 2, y: 2 }, false, replies@),
    {
        let data = Self::error_pixels();
        Self::new_from_raw_data(&data, IVec2 { x: 2, y: 2 }, false, replies)
    }

    /// Turns an image upside down: image files have their first row at the
    /// top, a texture has it at the bottom. `data` holds the rows of an image
    /// of the size `size`, four bytes to the texel. Data that does not hold
    /// exactly such an image is refused. An image without a row or without a
    /// column has no texel and comes back as it is.
    pub fn flip_rows(data: Vec<u8>, size: IVec2) -> (flipped: Option<Vec<u8>>)
        ensures
            match flipped {
                Some(rows) => holds_image(data@, size) && rows@ == rows_reversed(
                    data@,
                    4 * size.x,
                    size.y as int,
                ),
                None => !holds_image(data@, size),
            },
    {
        if size.x < 0 || size.y < 0 {
            return None;
        }
        if !crate::texture::common::holds(data.len(), 4, size.x, size.y) {
            return None;
        }
        if size.x == 0 || size.y == 0 {
            assert(4 * size.x * size.y == 0) by (nonlinear_arith)
                requires
                    size.x == 0 || size.y == 0,
            ;
            assert(data@ =~= rows_reversed(data@, 4 * size.x, size.y as int));
            return Some(data);
        }
        assert(4 * size.x * size.y == 4 * (size.x as u32) * (size.y as u32)) by (nonlinear_arith)
            requires
                size.x >= 0,
                size.y >= 0,
        ;
        assert(4 * (size.x as u32) <= data@.len()) by (nonlinear_arith)
            requires
                data@.len() == 4 * size.x * size.y,
                size.x >= 1,
                size.y >= 1,
        ;
        Some(flip_vertical(data, size.x as u32, size.y as u32))
    }

    /// One step of making a texture out of an image file, after the driver's
    /// answers `replies`. `image` is what reading the file gave: the texels
    /// from the bottom row up, as `flip_rows` puts them, with the size; or
    /// nothing where the file could not be read, in which case the texture is
    /// the stand-in of `new_error_texture`.
    pub fn new(image: Option<(&Vec<u8>, IVec2)>, antialiased: bool, replies: &Vec<u32>) -> (step:
        Construction<Texture2D>)
        ensures
            step.outline() == (match image {
                Some((data, size)) => Self::new_from(size, antialiased, replies@),
                None => Self::new_from(IVec2 { x: 2, y: 2 }, false, replies@),
            }),
    {
        match image {
            Some((data, size)) => Self::new_from_raw_data(data, size, antialiased, replies),
            None => Self::new_error_texture(replies),
        }
    }

    /// The commands of `upload` for a texture of this name and size.
    fn upload_commands(id: u32, size: IVec2, smooth: bool) -> (commands: Vec<GlCommand>)
        ensures
            commands@ == (Texture2DView { id, size }).upload(smooth),
    {
        let mut commands = crate::texture::common::bind_first_commands(TEXTURE_2D, id);
        crate::plan::extend(&mut commands, crate::texture::common::repeat_commands(TEXTURE_2D));
        crate::plan::extend(
            &mut commands,
            crate::texture::common::filter_commands(TEXTURE_2D, smooth),
        );
        commands.push(
            GlCommand::TexImage2DData {
                internal_format: RGBA,
                width: size.x,
                height: size.y,
                format: RGBA,
                data_type: UNSIGNED_BYTE,
            },
        );
        assert(commands@ =~= (Texture2DView { id, size }).upload(smooth));
        commands
    }

    /// The name of the texture; 0 while it has none.
    pub fn id(&self) -> (id: u32)
        ensures
            id == self@.id,
    {
        self.id
    }

    /// The size of the data last given.
    pub fn size(&self) -> (size: IVec2)
        ensures
            size == self@.size,
    {
        self.size
    }

    /// Binds the texture at the first texture unit.
    pub fn bind(&self) -> (commands: Vec<GlCommand>)
        ensures
            commands@ == self@.bind(),
    {
        crate::texture::common::bind_first_commands(TEXTURE_2D, self.id)
    }

    /// Binds the texture at texture unit `unit`.
    pub fn bind_to_unit(&self, unit: u32) -> (commands: Vec<GlCommand>)
        ensures
            commands@ == self@.bind_to_unit(unit),
    {
        crate::texture::common::bind_at_commands(TEXTURE_2D, self.id, unit)
    }

    /// The command that `destroy` returns, without giving the texture up.
    pub fn destroy_commands(&self) -> (commands: Vec<GlCommand>)
        ensures
            commands@ == self@.release(),
    {
        if self.id == 0 {
            Vec::new()
        } else {
            vec![GlCommand::DeleteTexture { texture: self.id }]
        }
    }

    /// Gives the texture up: the command deletes it, if it has a name.
    pub fn destroy(self) -> (commands: Vec<GlCommand>)
        ensures
            commands@ == self@.release(),
    {
        self.destroy_commands()
    }
}

} // verus!
