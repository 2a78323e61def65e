//! The arguments of the `chart` command.
use vstd::prelude::*;

verus! {

/// What to chart, for which node, and where.
#[derive(Debug, Clone)]
pub struct ChartArgs {
    node: String,
    input_path: Option<String>,
    output_path: Option<String>,
    clean: bool,
    chart: ChartRequest,
}

/// The abstract value of a [`ChartArgs`].
pub struct ChartArgsView {
    pub node: Seq<char>,
    pub input_path: Option<Seq<char>>,
    pub output_path: Option<Seq<char>>,
    pub clean: bool,
    pub chart: ChartRequest,
}

/// The text of an optional text.
pub open spec fn opt_view(s: Option<String>) -> Option<Seq<char>> {
    match s {
        Some(t) => Some(t@),
        None => None,
    }
}

impl View for ChartArgs {
    type V = ChartArgsView;

    closed spec fn view(&self) -> ChartArgsView {
        ChartArgsView {
            node: self.node@,
            input_path: opt_view(self.input_path),
            output_path: opt_view(self.output_path),
            clean: self.clean,
            chart: self.chart,
        }
    }
}

impl ChartArgs {
    pub fn new(node: String, input_path: Option<String>, output_path: Option<String>, clean: bool, chart: ChartRequest) -> (r: Self)
        ensures
            r@ == (ChartArgsView {
                node: node@,
                input_path: opt_view(input_path),
                output_path: opt_view(output_path),
                clean,
                chart,
            }),
    {
        ChartArgs { node, input_path, output_path, clean, chart }
    }

    /// The full name of the node to draw the chart for.
    pub fn node(&self) -> (r: &str)
        ensures
            r@ == self@.node,
    {
        self.node.as_str()
    }

    /// The file of the data, or a folder that holds it under its default name.
    pub fn input_path(&self) -> (r: &Option<String>)
        ensures
            opt_view(*r) == self@.input_path,
    {
        &self.input_path
    }

    /// The file to write, or a folder to write it into.
    pub fn output_path(&self) -> (r: &Option<String>)
        ensures
            opt_view(*r) == self@.output_path,
    {
        &self.output_path
    }

    /// Whether the chart is drawn anew even where a matching one exists.
    pub fn clean(&self) -> (r: bool)
        ensures
            r == self@.clean,
    {
        self.clean
    }

    /// What to chart and how.
    pub fn chart(&self) -> (r: &ChartRequest)
        ensures
            *r == self@.chart,
    {
        &self.chart
    }
}

/// The value to chart, the kind of chart, and the image to produce.
#[derive(Debug, Clone)]
pub struct ChartRequest {
    pub value: ChartedValue,
    pub plot: ChartVariants,
    /// The size of the rendered image.
    pub size: u32,
    pub output_format: ChartOutputFormat,
}

/// The file type of the rendered image.
#[derive(Debug, Clone, Copy, PartialEq, Eq)]
pub enum ChartOutputFormat {
    SVG,
    PNG,
}

impl ChartOutputFormat {
    /// The default format: SVG.
    pub fn default_format() -> (r: Self)
        ensures
            r == ChartOutputFormat::SVG,
    {
        ChartOutputFormat::SVG
    }

    /// The name of the format.
    pub fn label(&self) -> (r: &'static str)
        ensures
            r@ == (match *self {
                ChartOutputFormat::SVG => "svg"@,
                ChartOutputFormat::PNG => "png"@,
            }),
    {
        match self {
            ChartOutputFormat::SVG => "svg",
            ChartOutputFormat::PNG => "png",
        }
    }
}

/// The value that a chart shows.
#[derive(Debug, Clone, Copy, PartialEq, Eq)]
pub enum ChartedValue {
    /// Callback execution durations.
    CallbackDuration,
    /// Delays between callback or timer activations.
    ActivationsDelay,
    /// Delays between publisher publications.
    PublicationsDelay,
    /// Delays between subscriber messages.
    MessagesDelay,
    /// Latency of a communication channel.
    MessagesLatency,
}

impl ChartedValue {
    /// The caption of the value.
    pub fn label(&self) -> (r: &'static str)
        ensures
            r@ == (match *self {
                ChartedValue::CallbackDuration => "Callback execution time"@,
                ChartedValue::ActivationsDelay => "Delays between activations"@,
                ChartedValue::PublicationsDelay => "Delay between publication"@,
                ChartedValue::MessagesDelay => "Delay between"@,
                ChartedValue::MessagesLatency => "Latency"@,
            }),
    {
        match self {
            ChartedValue::CallbackDuration => "Callback execution time",
            ChartedValue::ActivationsDelay => "Delays between activations",
            ChartedValue::PublicationsDelay => "Delay between publication",
            ChartedValue::MessagesDelay => "Delay between",
            ChartedValue::MessagesLatency => "Latency",
        }
    }
}

/// The kind of chart.
#[derive(Debug, Clone, Copy, PartialEq, Eq)]
pub enum ChartVariants {
    Histogram(HistogramData),
    Scatter,
}

impl ChartVariants {
    /// The name of the kind of chart.
    pub fn label(&self) -> (r: &'static str)
        ensures
            r@ == (match *self {
                ChartVariants::Histogram(_) => "Histogram"@,
                ChartVariants::Scatter => "Scatter"@,
            }),
    {
        match self {
            ChartVariants::Histogram(_) => "Histogram",
            ChartVariants::Scatter => "Scatter",
        }
    }
}

/// The parameters of a histogram.
#[derive(Debug, Clone, Copy, PartialEq, Eq)]
pub struct HistogramData {
    /// The number of bins to split the data into.
    pub bins: Option<usize>,
}

} // verus!
