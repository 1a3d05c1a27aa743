//! The error type shared by every fallible operation of the crate.

use vstd::prelude::*;
use vstd::string::StringExecFns;

verus! {

/// What went wrong while preparing or driving a piece of the renderer.
#[derive(Debug)]
pub enum RenderError {
    RenderableError { error: String },
    BufferError { error: String },
    FontError { error: String },
    TextureIntError { error: String },
    TextureError { texture_path: String, error: String },
    ShaderError { shader_name: String, shader_type: String, error: String },
    WindowError { window_name: String, error: String },
    GLFWError { error: String },
}

/// A `RenderError` with every piece of text taken as a sequence of characters.
pub enum RenderErrorView {
    RenderableError { error: Seq<char> },
    BufferError { error: Seq<char> },
    FontError { error: Seq<char> },
    TextureIntError { error: Seq<char> },
    TextureError { texture_path: Seq<char>, error: Seq<char> },
    ShaderError { shader_name: Seq<char>, shader_type: Seq<char>, error: Seq<char> },
    WindowError { window_name: Seq<char>, error: Seq<char> },
    GLFWError { error: Seq<char> },
}

impl RenderErrorView {
    /// The line a user reads for this error.
    pub open spec fn message(self) -> Seq<char> {
        match self {
            RenderErrorView::RenderableError { error } =>
                "Error with OpenGL renderable object: "@ + error,
            RenderErrorView::BufferError { error } =>
                "Error with OpenGL buffer object: "@ + error,
            RenderErrorView::FontError { error } =>
                "Error with font object: "@ + error,
            RenderErrorView::TextureIntError { error } =>
                "Failed to create integer texture: : "@ + error,
            RenderErrorView::TextureError { texture_path, error } =>
                "Failed to load texture file at "@ + texture_path + ": "@ + error,
            RenderErrorView::ShaderError { shader_name, shader_type, error } =>
                "["@ + shader_name + "("@ + shader_type + ")] "@ + error,
            RenderErrorView::WindowError { window_name, error } =>
                "["@ + window_name + "] "@ + error,
            RenderErrorView::GLFWError { error } => error,
        }
    }
}

impl View for RenderError {
    type V = RenderErrorView;

    open spec fn view(&self) -> RenderErrorView {
        match *self {
            RenderError::RenderableError { error } =>
                RenderErrorView::RenderableError { error: error@ },
            RenderError::BufferError { error } =>
                RenderErrorView::BufferError { error: error@ },
            RenderError::FontError { error } =>
                RenderErrorView::FontError { error: error@ },
            RenderError::TextureIntError { error } =>
                RenderErrorView::TextureIntError { error: error@ },
            RenderError::TextureError { texture_path, error } =>
                RenderErrorView::TextureError { texture_path: texture_path@, error: error@ },
            RenderError::ShaderError { shader_name, shader_type, error } =>
                RenderErrorView::ShaderError {
                    shader_name: shader_name@,
                    shader_type: shader_type@,
                    error: error@,
                },
            RenderError::WindowError { window_name, error } =>
                RenderErrorView::WindowError { window_name: window_name@, error: error@ },
            RenderError::GLFWError { error } =>
                RenderErrorView::GLFWError { error: error@ },
        }
    }
}

impl Clone for RenderError {
    fn clone(&self) -> (copy: RenderError)
        ensures
            copy@ == self@,
    {
        match self {
            RenderError::RenderableError { error } =>
                RenderError::RenderableError { error: error.clone() },
            RenderError::BufferError { error } =>
                RenderError::BufferError { error: error.clone() },
            RenderError::FontError { error } =>
                RenderError::FontError { error: error.clone() },
            RenderError::TextureIntError { error } =>
                RenderError::TextureIntError { error: error.clone() },
            RenderError::TextureError { texture_path, error } =>
                RenderError::TextureError {
                    texture_path: texture_path.clone(),
                    error: error.clone(),
                },
            RenderError::ShaderError { shader_name, shader_type, error } =>
                RenderError::ShaderError {
                    shader_name: shader_name.clone(),
                    shader_type: shader_type.clone(),
                    error: error.clone(),
                },
            RenderError::WindowError { window_name, error } =>
                RenderError::WindowError {
                    window_name: window_name.clone(),
                    error: error.clone(),
                },
            RenderError::GLFWError { error } =>
                RenderError::GLFWError { error: error.clone() },
        }
    }
}

impl RenderError {
    /// A buffer error carrying `text`.
    pub fn buffer(text: &str) -> (error: RenderError)
        ensures
            error@ == (RenderErrorView::BufferError { error: text@ }),
    {
        RenderError::BufferError { error: String::from_str(text) }
    }

    /// An integer texture error carrying `text`.
    pub fn texture_int(text: &str) -> (error: RenderError)
        ensures
            error@ == (RenderErrorView::TextureIntError { error: text@ }),
    {
        RenderError::TextureIntError { error: String::from_str(text) }
    }

    /// A renderable error carrying `text`.
    pub fn renderable(text: &str) -> (error: RenderError)
        ensures
            error@ == (RenderErrorView::RenderableError { error: text@ }),
    {
        RenderError::RenderableError { error: String::from_str(text) }
    }

    /// The line a user reads for this error: a fixed lead for the kind of
    /// error, then the fields it carries.
    pub fn message(&self) -> (text: String)
        ensures
            text@ == self@.message(),
    {
        match self {
            RenderError::RenderableError { error } => {
                let mut text = String::from_str("Error with OpenGL renderable object: ");
                text.append(error.as_str());
                text
            },
            RenderError::BufferError { error } => {
                let mut text = String::from_str("Error with OpenGL buffer object: ");
                text.append(error.as_str());
                text
            },
            RenderError::FontError { error } => {
                let mut text = String::from_str("Error with font object: ");
                text.append(error.as_str());
                text
            },
            RenderError::TextureIntError { error } => {
                let mut text = String::from_str("Failed to create integer texture: : ");
                text.append(error.as_str());
                text
            },
            RenderError::TextureError { texture_path, error } => {
                let mut text = String::from_str("Failed to load texture file at ");
                text.append(texture_path.as_str());
                text.append(": ");
                text.append(error.as_str());
                text
            },
            RenderError::ShaderError { shader_name, shader_type, error } => {
                let mut text = String::from_str("[");
                text.append(shader_name.as_str());
                text.append("(");
                text.append(shader_type.as_str());
                text.append(")] ");
                text.append(error.as_str());
                text
            },
            RenderError::WindowError { window_name, error } => {
                let mut text = String::from_str("[");
                text.append(window_name.as_str());
                text.append("] ");
                text.append(error.as_str());
                text
            },
            RenderError::GLFWError { error } => error.clone(),
        }
    }
}

} // verus!
