//! The options of an extraction, and the names under which the extractor knows them.

use vstd::prelude::*;

verus! {

/// Area calculation mode in which a rectangle is read as percentages of the page.
pub const RELATIVE_AREA_CALCULATION_MODE: i32 = 0;

/// Area calculation mode in which a rectangle is read as coordinates on the page.
pub const ABSOLUTE_AREA_CALCULATION_MODE: i32 = 1;

/// The format in which extracted tables are written.
#[derive(Debug, Clone, Copy, PartialEq, Eq, Structural)]
pub enum OutputFormat {
    Csv,
    Json,
    Tsv,
}

impl OutputFormat {
    /// The name of the constant that stands for this format on the extractor's side.
    pub open spec fn field_view(self) -> Seq<char> {
        match self {
            OutputFormat::Csv => seq!['C', 'S', 'V'],
            OutputFormat::Json => seq!['J', 'S', 'O', 'N'],
            OutputFormat::Tsv => seq!['T', 'S', 'V'],
        }
    }

    /// Gives the name of the constant that stands for this format.
    pub fn field_name(&self) -> (name: &'static str)
        ensures
            name@ == self.field_view(),
    {
        proof {
            reveal_strlit("CSV");
            reveal_strlit("JSON");
            reveal_strlit("TSV");
        }
        match self {
            OutputFormat::Csv => "CSV",
            OutputFormat::Json => "JSON",
            OutputFormat::Tsv => "TSV",
        }
    }

    /// Different formats go by different names.
    pub proof fn lemma_field_names_differ(a: OutputFormat, b: OutputFormat)
        requires
            a.field_view() == b.field_view(),
        ensures
            a == b,
    {
    }
}

/// The way in which tables are found on a page.
#[derive(Debug, Clone, Copy, PartialEq, Eq, Structural)]
pub enum ExtractionMethod {
    Basic,
    Spreadsheet,
    Decide,
}

impl ExtractionMethod {
    /// The name of the constant that stands for this method on the extractor's side.
    pub open spec fn field_view(self) -> Seq<char> {
        match self {
            ExtractionMethod::Basic => seq!['B', 'A', 'S', 'I', 'C'],
            ExtractionMethod::Spreadsheet => seq![
                'S',
                'P',
                'R',
                'E',
                'A',
                'D',
                'S',
                'H',
                'E',
                'E',
                'T',
            ],
            ExtractionMethod::Decide => seq!['D', 'E', 'C', 'I', 'D', 'E'],
        }
    }

    /// Gives the name of the constant that stands for this method.
    pub fn field_name(&self) -> (name: &'static str)
        ensures
            name@ == self.field_view(),
    {
        proof {
            reveal_strlit("BASIC");
            reveal_strlit("SPREADSHEET");
            reveal_strlit("DECIDE");
        }
        match self {
            ExtractionMethod::Basic => "BASIC",
            ExtractionMethod::Spreadsheet => "SPREADSHEET",
            ExtractionMethod::Decide => "DECIDE",
        }
    }

    /// Different methods go by different names.
    pub proof fn lemma_field_names_differ(a: ExtractionMethod, b: ExtractionMethod)
        requires
            a.field_view() == b.field_view(),
        ensures
            a == b,
    {
    }
}

} // verus!
