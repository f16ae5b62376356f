//! The return type that a function must declare to be interposed.
//!
//! The body of a replacement is written as a function that returns
//! `LibcResult<T>`, where `T` is what the entry point returns. Before a
//! function is turned into a replacement, the type it declares is held
//! against that form; what is wrong with it is told as an error.

use vstd::prelude::*;
use crate::text::same_text;

verus! {

/// The name of the type that the body of a replacement returns.
pub const RESULT_TYPE_NAME: &'static str = "LibcResult";

/// What stands behind the name of one segment of a type path.
#[derive(Clone, Debug, PartialEq, Eq)]
pub enum ArgumentsShape {
    /// Nothing, as in `LibcResult`.
    Bare,
    /// Arguments in angle brackets, as in `LibcResult<T>`. For each argument,
    /// whether it is a type.
    AngleBracketed { is_type: Vec<bool> },
    /// Arguments in round brackets, as in `Fn(T)`.
    Parenthesized,
}

/// One segment of a type path: its name and what stands behind it.
#[derive(Clone, Debug, PartialEq, Eq)]
pub struct SegmentShape {
    pub ident: String,
    pub arguments: ArgumentsShape,
}

/// The return type that a function declares, as far as the form matters.
#[derive(Clone, Debug, PartialEq, Eq)]
pub enum ReturnShape {
    /// The function declares no return type.
    Absent,
    /// A type given by a path, as `LibcResult<T>` and `std::io::Result<T>`
    /// are.
    Path { segments: Vec<SegmentShape> },
    /// Any other type: a reference, a tuple, a pointer.
    Other,
}

/// The model of [`ArgumentsShape`].
pub enum ArgumentsShapeView {
    Bare,
    AngleBracketed { is_type: Seq<bool> },
    Parenthesized,
}

/// The model of [`SegmentShape`].
pub struct SegmentShapeView {
    pub ident: Seq<char>,
    pub arguments: ArgumentsShapeView,
}

/// The model of [`ReturnShape`].
pub enum ReturnShapeView {
    Absent,
    Path { segments: Seq<SegmentShapeView> },
    Other,
}

impl View for ArgumentsShape {
    type V = ArgumentsShapeView;

    open spec fn view(&self) -> ArgumentsShapeView {
        match self {
            ArgumentsShape::Bare => ArgumentsShapeView::Bare,
            ArgumentsShape::AngleBracketed { is_type } => ArgumentsShapeView::AngleBracketed {
                is_type: is_type@,
            },
            ArgumentsShape::Parenthesized => ArgumentsShapeView::Parenthesized,
        }
    }
}

impl View for SegmentShape {
    type V = SegmentShapeView;

    open spec fn view(&self) -> SegmentShapeView {
        SegmentShapeView { ident: self.ident@, arguments: self.arguments@ }
    }
}

impl View for ReturnShape {
    type V = ReturnShapeView;

    open spec fn view(&self) -> ReturnShapeView {
        match self {
            ReturnShape::Absent => ReturnShapeView::Absent,
            ReturnShape::Path { segments } => ReturnShapeView::Path {
                segments: segments@.map_values(|s: SegmentShape| s@),
            },
            ReturnShape::Other => ReturnShapeView::Other,
        }
    }
}

/// What is wrong with the return type of a function that is to be interposed.
#[derive(Clone, Copy, Debug, PartialEq, Eq, Structural)]
pub enum InterposeError {
    /// The function declares no return type.
    NoReturnType,
    /// The return type is not given by a path.
    NotAPath,
    /// The path is not the single name `LibcResult`.
    NotLibcResult,
    /// No arguments in angle brackets stand behind the name.
    NotAngleBracketed,
    /// The angle brackets hold no argument, or more than one.
    NotOneArgument,
    /// The one argument is not a type.
    NotAType,
}

/// The error in words.
pub open spec fn message_spec(error: InterposeError) -> Seq<char> {
    match error {
        InterposeError::NoReturnType => "Function must return LibcResult<T>"@,
        InterposeError::NotAPath => "Expected LibcResult<T>"@,
        InterposeError::NotLibcResult => "Expected return type LibcResult<T>"@,
        InterposeError::NotAngleBracketed => "Expected angle bracketed args, e.g. LibcResult<T>"@,
        InterposeError::NotOneArgument => "Expected exactly one type parameter in LibcResult"@,
        InterposeError::NotAType => "Expected a type parameter in LibcResult"@,
    }
}

impl InterposeError {
    /// The error in words, as the author of the function reads it.
    pub fn message(&self) -> (text: &'static str)
        ensures
            text@ == message_spec(*self),
    {
        match self {
            InterposeError::NoReturnType => "Function must return LibcResult<T>",
            InterposeError::NotAPath => "Expected LibcResult<T>",
            InterposeError::NotLibcResult => "Expected return type LibcResult<T>",
            InterposeError::NotAngleBracketed => "Expected angle bracketed args, e.g. LibcResult<T>",
            InterposeError::NotOneArgument => "Expected exactly one type parameter in LibcResult",
            InterposeError::NotAType => "Expected a type parameter in LibcResult",
        }
    }
}

/// Whether what stands behind the name `LibcResult` is one type in angle
/// brackets, and what is wrong where it is not.
pub open spec fn check_arguments_spec(arguments: ArgumentsShapeView) -> Result<(), InterposeError> {
    match arguments {
        ArgumentsShapeView::AngleBracketed { is_type } => if is_type.len() != 1 {
            Err(InterposeError::NotOneArgument)
        } else if !is_type[0] {
            Err(InterposeError::NotAType)
        } else {
            Ok(())
        },
        _ => Err(InterposeError::NotAngleBracketed),
    }
}

/// Whether a return type has the form `LibcResult<T>`, with the single name
/// `LibcResult` and one type behind it, and what is wrong where it has not.
pub open spec fn check_return_type_spec(shape: ReturnShapeView) -> Result<(), InterposeError> {
    match shape {
        ReturnShapeView::Absent => Err(InterposeError::NoReturnType),
        ReturnShapeView::Other => Err(InterposeError::NotAPath),
        ReturnShapeView::Path { segments } => if segments.len() == 1 && segments[0].ident
            == RESULT_TYPE_NAME@ {
            check_arguments_spec(segments[0].arguments)
        } else {
            Err(InterposeError::NotLibcResult)
        },
    }
}

/// Holds the return type of a function against the form `LibcResult<T>`.
pub fn check_return_type(shape: &ReturnShape) -> (r: Result<(), InterposeError>)
    ensures
        r == check_return_type_spec(shape@),
{
    match shape {
        ReturnShape::Absent => Err(InterposeError::NoReturnType),
        ReturnShape::Other => Err(InterposeError::NotAPath),
        ReturnShape::Path { segments } => {
            if segments.len() != 1 {
                return Err(InterposeError::NotLibcResult);
            }
            let segment = &segments[0];
            assert(shape@->segments[0] == segment@);
            if !same_text(segment.ident.as_str(), RESULT_TYPE_NAME) {
                return Err(InterposeError::NotLibcResult);
            }
            match &segment.arguments {
                ArgumentsShape::AngleBracketed { is_type } => {
                    if is_type.len() != 1 {
                        Err(InterposeError::NotOneArgument)
                    } else if !is_type[0] {
                        Err(InterposeError::NotAType)
                    } else {
                        Ok(())
                    }
                },
                _ => Err(InterposeError::NotAngleBracketed),
            }
        },
    }
}

} // verus!
