//! The arguments of the `extract` command.
use vstd::prelude::*;

use super::chart_args::opt_view;

verus! {

/// Which file a path argument names, once the file system has said whether the given
/// path is a directory.
#[derive(Debug, Clone, Copy, PartialEq, Eq)]
pub enum PathChoice {
    /// The given path itself.
    AsGiven,
    /// The default file name inside the given directory.
    InGivenDirectory,
    /// The default file name inside the current directory.
    InCurrentDirectory,
}

/// The file that a path argument names: the path itself, or the default file name
/// inside it when it is a directory, or inside the current directory when no path is
/// given.
pub open spec fn path_choice(given: bool, given_is_dir: bool) -> PathChoice {
    if !given {
        PathChoice::InCurrentDirectory
    } else if given_is_dir {
        PathChoice::InGivenDirectory
    } else {
        PathChoice::AsGiven
    }
}

/// Decides which file a path argument names (see [`path_choice`]).
pub fn choose_path(given: bool, given_is_dir: bool) -> (r: PathChoice)
    ensures
        r == path_choice(given, given_is_dir),
{
    if !given {
        PathChoice::InCurrentDirectory
    } else if given_is_dir {
        PathChoice::InGivenDirectory
    } else {
        PathChoice::AsGiven
    }
}

/// The default name of the data bundle.
pub const DEFAULT_BUNDLE_NAME: &'static str = "binary_bundle.sqlite";

/// The default name of the extracted data.
pub const DEFAULT_OUTPUT_NAME: &'static str = "extract_data.json";

/// Which data to extract, for which element, and where.
#[derive(Debug, Clone)]
pub struct ExtractArgs {
    element_id: String,
    property: AnalysisProperty,
    input_path: Option<String>,
    output_path: Option<String>,
}

/// The abstract value of an [`ExtractArgs`].
pub struct ExtractArgsView {
    pub element_id: Seq<char>,
    pub property: AnalysisProperty,
    pub input_path: Option<Seq<char>>,
    pub output_path: Option<Seq<char>>,
}

impl View for ExtractArgs {
    type V = ExtractArgsView;

    closed spec fn view(&self) -> ExtractArgsView {
        ExtractArgsView {
            element_id: self.element_id@,
            property: self.property,
            input_path: opt_view(self.input_path),
            output_path: opt_view(self.output_path),
        }
    }
}

impl ExtractArgs {
    pub fn new(element_id: String, property: AnalysisProperty, input_path: Option<String>, output_path: Option<String>) -> (r: Self)
        ensures
            r@ == (ExtractArgsView {
                element_id: element_id@,
                property,
                input_path: opt_view(input_path),
                output_path: opt_view(output_path),
            }),
    {
        ExtractArgs { element_id, property, input_path, output_path }
    }

    /// The identifier of the element whose data to extract.
    pub fn element_id(&self) -> (r: &str)
        ensures
            r@ == self@.element_id,
    {
        self.element_id.as_str()
    }

    /// The property to extract.
    pub fn property(&self) -> (r: &AnalysisProperty)
        ensures
            *r == self@.property,
    {
        &self.property
    }

    /// The data bundle to read: the given path, if any, and which file it names
    /// (see [`path_choice`]) once it is known whether it is a directory; the default
    /// name is [`DEFAULT_BUNDLE_NAME`].
    pub fn input_path(&self, given_is_dir: bool) -> (r: (Option<&str>, PathChoice))
        ensures
            match r.0 {
                Some(p) => self@.input_path == Some(p@),
                None => self@.input_path is None,
            },
            r.1 == path_choice(self@.input_path is Some, given_is_dir),
    {
        let given = match &self.input_path {
            Some(p) => Some(p.as_str()),
            None => None,
        };
        (given, choose_path(given.is_some(), given_is_dir))
    }

    /// The file to write: the given path, if any, and which file it names (see
    /// [`path_choice`]) once it is known whether it is a directory; the default name
    /// is [`DEFAULT_OUTPUT_NAME`].
    pub fn output_path(&self, given_is_dir: bool) -> (r: (Option<&str>, PathChoice))
        ensures
            match r.0 {
                Some(p) => self@.output_path == Some(p@),
                None => self@.output_path is None,
            },
            r.1 == path_choice(self@.output_path is Some, given_is_dir),
    {
        let given = match &self.output_path {
            Some(p) => Some(p.as_str()),
            None => None,
        };
        (given, choose_path(given.is_some(), given_is_dir))
    }
}

/// The property of an element to extract.
#[derive(Debug, Clone, Copy, PartialEq, Eq)]
pub enum AnalysisProperty {
    /// Callback execution durations.
    CallbackDuration,
    /// Delays between callback or timer activations.
    ActivationsDelay,
    /// Delays between publisher publications.
    PublicationsDelay,
    /// Delays between subscriber messages.
    MessagesDelay,
    /// Latency of a communication channel.
    MessagesLatency,
}

impl AnalysisProperty {
    /// The caption of the property.
    pub fn label(&self) -> (r: &'static str)
        ensures
            r@ == (match *self {
                AnalysisProperty::CallbackDuration => "Callback execution time"@,
                AnalysisProperty::ActivationsDelay => "Delays between activations"@,
                AnalysisProperty::PublicationsDelay => "Delay between publication"@,
                AnalysisProperty::MessagesDelay => "Delay between"@,
                AnalysisProperty::MessagesLatency => "Latency"@,
            }),
    {
        match self {
            AnalysisProperty::CallbackDuration => "Callback execution time",
            AnalysisProperty::ActivationsDelay => "Delays between activations",
            AnalysisProperty::PublicationsDelay => "Delay between publication",
            AnalysisProperty::MessagesDelay => "Delay between",
            AnalysisProperty::MessagesLatency => "Latency",
        }
    }
}

} // verus!
