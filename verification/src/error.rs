//! The errors the library's own parsing and configuration checks report.
use vstd::prelude::*;

verus! {

/// A console line the grammar refuses, or a setting the configuration
/// checks refuse, and why.
#[derive(Clone, Debug, PartialEq, Eq)]
pub enum AppError {
    InvalidEntityQuery(String),
    InvalidBlockIdentifier(String),
    InvalidCoordinates(String),
    UnknownConsoleCommand(String),
    MissingConsoleArgument(String),
    InvalidConsoleSyntax(String),
    InvalidConfiguration(String),
    InvalidMovementConfiguration(String),
    InvalidBlockSearchConfiguration(String),
    InvalidBlockNavigationConfiguration(String),
    InvalidVerticalNavigationConfiguration(String),
    InvalidEquipmentConfiguration(String),
    InvalidLookConfiguration(String),
    InvalidInteractionConfiguration(String),
    InvalidSurvivalConfiguration(String),
}

/// The plain content of an [`AppError`].
pub enum ErrorView {
    InvalidEntityQuery(Seq<char>),
    InvalidBlockIdentifier(Seq<char>),
    InvalidCoordinates(Seq<char>),
    UnknownConsoleCommand(Seq<char>),
    MissingConsoleArgument(Seq<char>),
    InvalidConsoleSyntax(Seq<char>),
    InvalidConfiguration(Seq<char>),
    InvalidMovementConfiguration(Seq<char>),
    InvalidBlockSearchConfiguration(Seq<char>),
    InvalidBlockNavigationConfiguration(Seq<char>),
    InvalidVerticalNavigationConfiguration(Seq<char>),
    InvalidEquipmentConfiguration(Seq<char>),
    InvalidLookConfiguration(Seq<char>),
    InvalidInteractionConfiguration(Seq<char>),
    InvalidSurvivalConfiguration(Seq<char>),
}

impl View for AppError {
    type V = ErrorView;

    open spec fn view(&self) -> ErrorView {
        match self {
            AppError::InvalidEntityQuery(m) => ErrorView::InvalidEntityQuery(m@),
            AppError::InvalidBlockIdentifier(m) => ErrorView::InvalidBlockIdentifier(m@),
            AppError::InvalidCoordinates(m) => ErrorView::InvalidCoordinates(m@),
            AppError::UnknownConsoleCommand(m) => ErrorView::UnknownConsoleCommand(m@),
            AppError::MissingConsoleArgument(m) => ErrorView::MissingConsoleArgument(m@),
            AppError::InvalidConsoleSyntax(m) => ErrorView::InvalidConsoleSyntax(m@),
            AppError::InvalidConfiguration(m) => ErrorView::InvalidConfiguration(m@),
            AppError::InvalidMovementConfiguration(m) => ErrorView::InvalidMovementConfiguration(m@),
            AppError::InvalidBlockSearchConfiguration(m) => ErrorView::InvalidBlockSearchConfiguration(m@),
            AppError::InvalidBlockNavigationConfiguration(m) => ErrorView::InvalidBlockNavigationConfiguration(m@),
            AppError::InvalidVerticalNavigationConfiguration(m) => ErrorView::InvalidVerticalNavigationConfiguration(m@),
            AppError::InvalidEquipmentConfiguration(m) => ErrorView::InvalidEquipmentConfiguration(m@),
            AppError::InvalidLookConfiguration(m) => ErrorView::InvalidLookConfiguration(m@),
            AppError::InvalidInteractionConfiguration(m) => ErrorView::InvalidInteractionConfiguration(m@),
            AppError::InvalidSurvivalConfiguration(m) => ErrorView::InvalidSurvivalConfiguration(m@),
        }
    }
}

impl AppError {
    /// The message the error carries.
    pub fn message(&self) -> (m: &String)
        ensures
            m@ == match self@ {
                ErrorView::InvalidEntityQuery(x) => x,
                ErrorView::InvalidBlockIdentifier(x) => x,
                ErrorView::InvalidCoordinates(x) => x,
                ErrorView::UnknownConsoleCommand(x) => x,
                ErrorView::MissingConsoleArgument(x) => x,
                ErrorView::InvalidConsoleSyntax(x) => x,
                ErrorView::InvalidConfiguration(x) => x,
                ErrorView::InvalidMovementConfiguration(x) => x,
                ErrorView::InvalidBlockSearchConfiguration(x) => x,
                ErrorView::InvalidBlockNavigationConfiguration(x) => x,
                ErrorView::InvalidVerticalNavigationConfiguration(x) => x,
                ErrorView::InvalidEquipmentConfiguration(x) => x,
                ErrorView::InvalidLookConfiguration(x) => x,
                ErrorView::InvalidInteractionConfiguration(x) => x,
                ErrorView::InvalidSurvivalConfiguration(x) => x,
            },
    {
        match self {
            AppError::InvalidEntityQuery(m) => m,
            AppError::InvalidBlockIdentifier(m) => m,
            AppError::InvalidCoordinates(m) => m,
            AppError::UnknownConsoleCommand(m) => m,
            AppError::MissingConsoleArgument(m) => m,
            AppError::InvalidConsoleSyntax(m) => m,
            AppError::InvalidConfiguration(m) => m,
            AppError::InvalidMovementConfiguration(m) => m,
            AppError::InvalidBlockSearchConfiguration(m) => m,
            AppError::InvalidBlockNavigationConfiguration(m) => m,
            AppError::InvalidVerticalNavigationConfiguration(m) => m,
            AppError::InvalidEquipmentConfiguration(m) => m,
            AppError::InvalidLookConfiguration(m) => m,
            AppError::InvalidInteractionConfiguration(m) => m,
            AppError::InvalidSurvivalConfiguration(m) => m,
        }
    }
}

} // verus!
