//! The rendered texts of the non-interactive output adapters.
use vstd::prelude::*;

verus! {

/// Plain text output, already rendered from its template.
#[derive(Debug, Clone)]
pub struct PlainOutput {
    pub template: String,
}

/// Multi-line detailed output, already rendered from its template.
#[derive(Debug, Clone)]
pub struct DetailedOutput {
    pub template: String,
}

/// JSON output, already rendered.
#[derive(Debug, Clone)]
pub struct JsonOutput {
    pub template: String,
}

/// One-line output, already rendered from its template.
#[derive(Debug, Clone)]
pub struct SimpleOutput {
    pub template: String,
}

/// Status-bar output: the bar text, its tooltip, style classes, and a fill
/// percentage.
#[derive(Debug, Clone)]
pub struct WaybarOutput {
    pub text: String,
    pub tooltip: String,
    pub class: Vec<String>,
    pub percentage: i8,
}

impl PlainOutput {
    /// The rendered text.
    pub fn render(&self) -> (r: String)
        ensures
            r == self.template,
    {
        self.template.clone()
    }
}

impl DetailedOutput {
    /// The rendered text.
    pub fn render(&self) -> (r: String)
        ensures
            r == self.template,
    {
        self.template.clone()
    }
}

impl JsonOutput {
    /// The rendered text.
    pub fn render(&self) -> (r: String)
        ensures
            r == self.template,
    {
        self.template.clone()
    }
}

impl SimpleOutput {
    /// The rendered text.
    pub fn render(&self) -> (r: String)
        ensures
            r == self.template,
    {
        self.template.clone()
    }
}

} // verus!
