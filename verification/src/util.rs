//! Settings for the user-interface context, collected before the context
//! exists.
use vstd::prelude::*;
use std::path::PathBuf;

verus! {

/// `std::path::PathBuf`, a path in the file system. Nothing is known of its
/// contents here; it is carried through unread.
#[verifier::external_type_specification]
#[verifier::external_body]
pub struct ExPathBuf(PathBuf);

/// The settings with which a user-interface context is created: what
/// [`ImguiBuilder::build`] hands to the code that creates it. A setting that
/// is `None` was never given.
pub struct ImguiSettings<A, C> {
    pub fonts: Option<A>,
    pub clipboard: Option<C>,
    pub ini_file: Option<PathBuf>,
    pub log_file: Option<PathBuf>,
    pub platform_name: Option<String>,
    pub renderer_name: Option<String>,
}

/// An idiomatic builder for the user-interface context.
///
/// Allows optional configuration of:
/// - the font atlas, of type `A`
/// - the clipboard backend, of type `C`
/// - the ini file path
/// - the log file path
/// - the platform name
/// - the renderer name
pub struct ImguiBuilder<A, C> {
    fonts: Option<A>,
    clipboard: Option<C>,
    ini_file: Option<PathBuf>,
    log_file: Option<PathBuf>,
    platform_name: Option<String>,
    renderer_name: Option<String>,
}

impl<A, C> ImguiBuilder<A, C> {
    /// The settings given so far.
    pub closed spec fn settings(self) -> ImguiSettings<A, C> {
        ImguiSettings {
            fonts: self.fonts,
            clipboard: self.clipboard,
            ini_file: self.ini_file,
            log_file: self.log_file,
            platform_name: self.platform_name,
            renderer_name: self.renderer_name,
        }
    }

    /// Creates a new builder with default (no) configuration.
    pub fn new() -> (builder: Self)
        ensures
            builder.settings() == (ImguiSettings::<A, C> {
                fonts: None,
                clipboard: None,
                ini_file: None,
                log_file: None,
                platform_name: None,
                renderer_name: None,
            }),
    {
        ImguiBuilder {
            fonts: None,
            clipboard: None,
            ini_file: None,
            log_file: None,
            platform_name: None,
            renderer_name: None,
        }
    }

    /// Finishes the configuration and hands out the settings, each as it
    /// was last given.
    pub fn build(self) -> (settings: ImguiSettings<A, C>)
        ensures
            settings == self.settings(),
    {
        ImguiSettings {
            fonts: self.fonts,
            clipboard: self.clipboard,
            ini_file: self.ini_file,
            log_file: self.log_file,
            platform_name: self.platform_name,
            renderer_name: self.renderer_name,
        }
    }

    /// Gives the font atlas that the context is to share. Without one the
    /// context gets an atlas of its own.
    pub fn font_atlas(self, atlas: A) -> (builder: Self)
        ensures
            builder.settings() == (ImguiSettings { fonts: Some(atlas), ..self.settings() }),
    {
        let mut builder = self;
        builder.fonts = Some(atlas);
        builder
    }

    /// Gives the clipboard backend to use in the built context.
    pub fn clipboard_backend(self, backend: C) -> (builder: Self)
        ensures
            builder.settings() == (ImguiSettings { clipboard: Some(backend), ..self.settings() }),
    {
        let mut builder = self;
        builder.clipboard = Some(backend);
        builder
    }

    /// Gives the path of the ini file in which layout data is saved and
    /// from which it is loaded.
    pub fn ini(self, path: PathBuf) -> (builder: Self)
        ensures
            builder.settings() == (ImguiSettings { ini_file: Some(path), ..self.settings() }),
    {
        let mut builder = self;
        builder.ini_file = Some(path);
        builder
    }

    /// Gives the path of the log file to which logging data is written.
    pub fn log(self, path: PathBuf) -> (builder: Self)
        ensures
            builder.settings() == (ImguiSettings { log_file: Some(path), ..self.settings() }),
    {
        let mut builder = self;
        builder.log_file = Some(path);
        builder
    }

    /// Gives the name that identifies the host platform.
    pub fn platform(self, name: String) -> (builder: Self)
        ensures
            builder.settings() == (ImguiSettings { platform_name: Some(name), ..self.settings() }),
    {
        let mut builder = self;
        builder.platform_name = Some(name);
        builder
    }

    /// Gives the name that identifies the rendering backend.
    pub fn renderer(self, name: String) -> (builder: Self)
        ensures
            builder.settings() == (ImguiSettings { renderer_name: Some(name), ..self.settings() }),
    {
        let mut builder = self;
        builder.renderer_name = Some(name);
        builder
    }
}

impl<A, C> Default for ImguiBuilder<A, C> {
    /// The builder with no configuration.
    fn default() -> (builder: Self)
        ensures
            builder.settings() == (ImguiSettings::<A, C> {
                fonts: None,
                clipboard: None,
                ini_file: None,
                log_file: None,
                platform_name: None,
                renderer_name: None,
            }),
    {
        ImguiBuilder::new()
    }
}

} // verus!
