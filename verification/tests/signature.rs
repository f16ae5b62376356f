use macaroni::signature::{
    check_return_type, ArgumentsShape, InterposeError, ReturnShape, SegmentShape,
    RESULT_TYPE_NAME,
};
use macaroni::text::same_text;

fn segment(ident: &str, arguments: ArgumentsShape) -> SegmentShape {
    SegmentShape { ident: ident.to_string(), arguments }
}

fn angle(is_type: &[bool]) -> ArgumentsShape {
    ArgumentsShape::AngleBracketed { is_type: is_type.to_vec() }
}

fn path(segments: Vec<SegmentShape>) -> ReturnShape {
    ReturnShape::Path { segments }
}

#[test]
fn libc_result_of_one_type_is_accepted() {
    assert_eq!(RESULT_TYPE_NAME, "LibcResult");
    assert_eq!(check_return_type(&path(vec![segment("LibcResult", angle(&[true]))])), Ok(()));
}

#[test]
fn a_missing_return_type_is_refused() {
    assert_eq!(check_return_type(&ReturnShape::Absent), Err(InterposeError::NoReturnType));
}

#[test]
fn a_type_that_is_no_path_is_refused() {
    assert_eq!(check_return_type(&ReturnShape::Other), Err(InterposeError::NotAPath));
}

#[test]
fn another_path_is_refused() {
    for shape in [
        path(vec![]),
        path(vec![segment("Result", angle(&[true]))]),
        path(vec![segment("libcresult", angle(&[true]))]),
        path(vec![segment("LibcResult2", angle(&[true]))]),
        path(vec![segment("LibcResul", angle(&[true]))]),
        path(vec![segment("", angle(&[true]))]),
        path(vec![
            segment("libc_interposition_lib", ArgumentsShape::Bare),
            segment("LibcResult", angle(&[true])),
        ]),
        path(vec![segment("LibcResult", angle(&[true])), segment("Inner", ArgumentsShape::Bare)]),
    ] {
        assert_eq!(check_return_type(&shape), Err(InterposeError::NotLibcResult), "{:?}", shape);
    }
}

#[test]
fn the_name_is_looked_at_before_the_arguments() {
    assert_eq!(
        check_return_type(&path(vec![segment("Other", ArgumentsShape::Bare)])),
        Err(InterposeError::NotLibcResult)
    );
    assert_eq!(
        check_return_type(&path(vec![segment("Other", angle(&[]))])),
        Err(InterposeError::NotLibcResult)
    );
}

#[test]
fn missing_angle_brackets_are_refused() {
    assert_eq!(
        check_return_type(&path(vec![segment("LibcResult", ArgumentsShape::Bare)])),
        Err(InterposeError::NotAngleBracketed)
    );
    assert_eq!(
        check_return_type(&path(vec![segment("LibcResult", ArgumentsShape::Parenthesized)])),
        Err(InterposeError::NotAngleBracketed)
    );
}

#[test]
fn none_or_several_arguments_are_refused() {
    for args in [&[][..], &[true, true][..], &[false, true][..], &[true, false, true][..]] {
        assert_eq!(
            check_return_type(&path(vec![segment("LibcResult", angle(args))])),
            Err(InterposeError::NotOneArgument)
        );
    }
}

#[test]
fn an_argument_that_is_no_type_is_refused() {
    assert_eq!(
        check_return_type(&path(vec![segment("LibcResult", angle(&[false]))])),
        Err(InterposeError::NotAType)
    );
}

#[test]
fn each_error_in_words() {
    assert_eq!(InterposeError::NoReturnType.message(), "Function must return LibcResult<T>");
    assert_eq!(InterposeError::NotAPath.message(), "Expected LibcResult<T>");
    assert_eq!(InterposeError::NotLibcResult.message(), "Expected return type LibcResult<T>");
    assert_eq!(
        InterposeError::NotAngleBracketed.message(),
        "Expected angle bracketed args, e.g. LibcResult<T>"
    );
    assert_eq!(
        InterposeError::NotOneArgument.message(),
        "Expected exactly one type parameter in LibcResult"
    );
    assert_eq!(InterposeError::NotAType.message(), "Expected a type parameter in LibcResult");
}

#[test]
fn same_text_agrees_with_std() {
    let samples = [
        "", "a", "b", "ab", "ba", "LibcResult", "LibcResul", "LibcResultt", "libcResult",
        "\u{e9}", "\u{e8}", "e", "\u{65e5}", "\u{65e5}\u{672c}", "\u{1f600}",
    ];
    for a in samples {
        for b in samples {
            assert_eq!(same_text(a, b), a == b, "{:?} {:?}", a, b);
        }
    }
}
