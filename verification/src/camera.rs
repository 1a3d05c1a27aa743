//! When a camera has to compute its matrices anew.
//!
//! A camera keeps its projection matrix, its view matrix and their product,
//! and computes each only when something that it depends on has changed.
//! This is the book of what has changed.

use vstd::prelude::*;

verus! {

/// Which matrices of a camera are out of date.
#[derive(Debug, Clone, Copy, PartialEq, Eq, Structural)]
pub struct DirtyFlags {
    /// The projection matrix does not match lens and aspect ratio.
    pub projection_matrix_dirty_flag: bool,
    /// The view matrix does not match position and rotation.
    pub view_matrix_dirty_flag: bool,
}

/// Which matrices to compute now.
#[derive(Debug, Clone, Copy, PartialEq, Eq, Structural)]
pub struct Refresh {
    pub projection: bool,
    pub view: bool,
    /// The product of the two. It is due whenever one of them was out of
    /// date.
    pub product: bool,
}

impl DirtyFlags {
    /// The flags of a new camera: nothing is computed yet.
    pub fn new() -> (flags: DirtyFlags)
        ensures
            flags.projection_matrix_dirty_flag,
            flags.view_matrix_dirty_flag,
    {
        DirtyFlags { projection_matrix_dirty_flag: true, view_matrix_dirty_flag: true }
    }

    /// The aspect ratio has changed.
    pub fn set_aspect_ratio(&mut self)
        ensures
            *final(self) == (DirtyFlags { projection_matrix_dirty_flag: true, ..*old(self) }),
    {
        self.projection_matrix_dirty_flag = true;
    }

    /// The camera was turned or moved.
    pub fn rotate(&mut self)
        ensures
            *final(self) == (DirtyFlags { view_matrix_dirty_flag: true, ..*old(self) }),
    {
        self.view_matrix_dirty_flag = true;
    }

    /// Some of three coordinates or angles were set, those for which the
    /// flag is given: the view is out of date if one was.
    pub fn set_some(&mut self, first: bool, second: bool, third: bool)
        ensures
            *final(self) == (DirtyFlags {
                view_matrix_dirty_flag: old(self).view_matrix_dirty_flag || first || second
                    || third,
                ..*old(self)
            }),
    {
        if first || second || third {
            self.view_matrix_dirty_flag = true;
        }
    }

    /// The projection matrix is wanted: whether to compute it, after which it
    /// is up to date.
    pub fn try_update_projection_matrix(&mut self) -> (due: bool)
        ensures
            due == old(self).projection_matrix_dirty_flag,
            *final(self) == (DirtyFlags { projection_matrix_dirty_flag: false, ..*old(self) }),
    {
        let due = self.projection_matrix_dirty_flag;
        self.projection_matrix_dirty_flag = false;
        due
    }

    /// The view matrix is wanted: whether to compute it, after which it is up
    /// to date.
    pub fn try_update_view_matrix(&mut self) -> (due: bool)
        ensures
            due == old(self).view_matrix_dirty_flag,
            *final(self) == (DirtyFlags { view_matrix_dirty_flag: false, ..*old(self) }),
    {
        let due = self.view_matrix_dirty_flag;
        self.view_matrix_dirty_flag = false;
        due
    }

    /// The product of the matrices is wanted: what to compute, after which
    /// everything is up to date.
    pub fn try_update_matrices(&mut self) -> (refresh: Refresh)
        ensures
            refresh == (Refresh {
                projection: old(self).projection_matrix_dirty_flag,
                view: old(self).view_matrix_dirty_flag,
                product: old(self).projection_matrix_dirty_flag
                    || old(self).view_matrix_dirty_flag,
            }),
            !final(self).projection_matrix_dirty_flag,
            !final(self).view_matrix_dirty_flag,
    {
        let product = self.do_matrices_need_update();
        let projection = self.try_update_projection_matrix();
        let view = self.try_update_view_matrix();
        Refresh { projection, view, product }
    }

    /// Whether a matrix is out of date.
    pub fn do_matrices_need_update(&self) -> (due: bool)
        ensures
            due == (self.projection_matrix_dirty_flag || self.view_matrix_dirty_flag),
    {
        self.projection_matrix_dirty_flag || self.view_matrix_dirty_flag
    }
}

} // verus!
