//! The context that the manager's commands work in: where builds and
//! installed versions are kept, and which vendor the host is.

use std::path::PathBuf;
use vstd::prelude::*;
use crate::discovery::Vendor;
use crate::text::joined;

verus! {

/// `std::path::PathBuf`, a path of the file system. Declared opaque: the
/// context carries paths and never looks into them.
#[verifier::external_type_specification]
#[verifier::external_body]
pub struct ExPathBuf(std::path::PathBuf);

/// The `clone` of `std::path::PathBuf`. Trusted: the copy is equal to the
/// path it was made of.
pub assume_specification[ <std::path::PathBuf as Clone>::clone ](
    path: &std::path::PathBuf,
) -> (copy: std::path::PathBuf)
    ensures
        copy == *path,
;

/// Why a context could not be built.
#[derive(Debug)]
pub enum ContextError {
    /// A path was never set. Holds the name of what is missing.
    MissingProperty(String),
}

/// A [`ContextError`] with its text as a sequence of characters.
pub enum ContextErrorView {
    MissingProperty(Seq<char>),
}

impl ContextErrorView {
    /// The sentence that tells a user of the failure.
    pub open spec fn message(self) -> Seq<char> {
        match self {
            ContextErrorView::MissingProperty(property) => "property "@ + property
                + " is missing"@,
        }
    }

    /// The kind of failure, in a few fixed words.
    pub open spec fn description(self) -> Seq<char> {
        "missing property"@
    }
}

impl View for ContextError {
    type V = ContextErrorView;

    open spec fn view(&self) -> ContextErrorView {
        match self {
            ContextError::MissingProperty(property) => ContextErrorView::MissingProperty(
                property@,
            ),
        }
    }
}

impl ContextError {
    /// The sentence that tells a user of the failure.
    pub fn message(&self) -> (text: String)
        ensures
            text@ == self@.message(),
    {
        match self {
            ContextError::MissingProperty(property) => {
                let mut text = joined("property ", property.as_str());
                text.append(" is missing");
                text
            },
        }
    }

    /// The kind of failure, in a few fixed words.
    pub fn description(&self) -> (text: &'static str)
        ensures
            text@ == self@.description(),
    {
        "missing property"
    }
}

/// Where the manager keeps its files on a host, and which vendor the host is.
#[derive(Debug)]
pub struct Context {
    build_path: PathBuf,
    version_path: PathBuf,
    vendor: Vendor,
}

/// What a [`Context`] holds.
pub struct ContextView {
    pub build_path: PathBuf,
    pub version_path: PathBuf,
    pub vendor: Vendor,
}

impl View for Context {
    type V = ContextView;

    closed spec fn view(&self) -> ContextView {
        ContextView {
            build_path: self.build_path,
            version_path: self.version_path,
            vendor: self.vendor,
        }
    }
}

impl Clone for Context {
    fn clone(&self) -> (copy: Context)
        ensures
            copy@ == self@,
    {
        Context {
            build_path: self.build_path.clone(),
            version_path: self.version_path.clone(),
            vendor: self.vendor,
        }
    }
}

impl Context {
    /// The vendor of the host.
    pub fn vendor(&self) -> (vendor: Vendor)
        ensures
            vendor == self@.vendor,
    {
        self.vendor
    }

    /// The folder that sources are built in.
    pub fn build_path(&self) -> (path: &PathBuf)
        ensures
            *path == self@.build_path,
    {
        &self.build_path
    }

    /// The folder that installed versions are kept in.
    pub fn version_path(&self) -> (path: &PathBuf)
        ensures
            *path == self@.version_path,
    {
        &self.version_path
    }
}

/// Collects what a [`Context`] is made of, one path at a time.
pub struct ContextBuilder {
    build_path: Option<PathBuf>,
    version_path: Option<PathBuf>,
}

/// What a [`ContextBuilder`] has been given so far.
pub struct ContextBuilderView {
    pub build_path: Option<PathBuf>,
    pub version_path: Option<PathBuf>,
}

impl View for ContextBuilder {
    type V = ContextBuilderView;

    closed spec fn view(&self) -> ContextBuilderView {
        ContextBuilderView { build_path: self.build_path, version_path: self.version_path }
    }
}

impl ContextBuilderView {
    /// The context that the paths given so far make on a host of `vendor`,
    /// or the first path that is missing: the build path is looked for
    /// before the version path.
    pub open spec fn built(self, vendor: Vendor) -> Result<ContextView, ContextErrorView> {
        match (self.build_path, self.version_path) {
            (None, _) => Err(ContextErrorView::MissingProperty("build path"@)),
            (Some(_), None) => Err(ContextErrorView::MissingProperty("version path"@)),
            (Some(build_path), Some(version_path)) => Ok(
                ContextView { build_path, version_path, vendor },
            ),
        }
    }
}

/// The outcome of building, by its views.
pub open spec fn built_view(outcome: Result<Context, ContextError>) -> Result<
    ContextView,
    ContextErrorView,
> {
    match outcome {
        Ok(context) => Ok(context@),
        Err(failure) => Err(failure@),
    }
}

impl ContextBuilder {
    /// A builder that has been given nothing yet.
    pub fn new() -> (builder: ContextBuilder)
        ensures
            builder@ == (ContextBuilderView { build_path: None, version_path: None }),
    {
        ContextBuilder { build_path: None, version_path: None }
    }

    /// Sets the folder that sources are built in, in place of an earlier one.
    pub fn build_path(&mut self, path: PathBuf) -> (builder: &mut ContextBuilder)
        ensures
            builder@ == (ContextBuilderView { build_path: Some(path), ..old(self)@ }),
            *final(self) == *final(builder),
    {
        self.build_path = Some(path);
        self
    }

    /// Sets the folder that installed versions are kept in, in place of an
    /// earlier one.
    pub fn version_path(&mut self, path: PathBuf) -> (builder: &mut ContextBuilder)
        ensures
            builder@ == (ContextBuilderView { version_path: Some(path), ..old(self)@ }),
            *final(self) == *final(builder),
    {
        self.version_path = Some(path);
        self
    }

    /// Builds the context of a host of `vendor`. The builder stays as it is.
    pub fn build(&self, vendor: Vendor) -> (outcome: Result<Context, ContextError>)
        ensures
            built_view(outcome) == self@.built(vendor),
    {
        let build_path = match self.build_path.as_ref() {
            Some(path) => path.clone(),
            None => return Err(ContextError::MissingProperty("build path".to_owned())),
        };
        let version_path = match self.version_path.as_ref() {
            Some(path) => path.clone(),
            None => return Err(ContextError::MissingProperty("version path".to_owned())),
        };
        Ok(Context { build_path, version_path, vendor })
    }
}

} // verus!
