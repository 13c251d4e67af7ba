use oxvm::parser::{
    any, expect, float, integer, many, optional, parse, parsed_float, parsed_integer, regex,
    sequence, spaces, string,
};

#[test]
fn string_test() {
    let res = parse("Hello World".to_string(), string("Hello World".to_string()));
    assert_eq!(res.unwrap(), "Hello World".to_string());

    let res = parse("Hello World".to_string(), string("Hallo World".to_string()));
    assert_eq!(
        res.unwrap_err(),
        "Parser error, expected 'Hallo World' at position '0'"
    );

    let res = parse(
        "My Hello World".to_string(),
        string("Hello World".to_string()),
    );
    assert_eq!(
        res.unwrap_err(),
        "Parser error, expected 'Hello World' at position '0'"
    );
}

#[test]
fn regex_test() {
    let res = parse(
        "DE0012 2322 2323".to_string(),
        regex(r"DE\d{4}\s\d{4}\s\d{4}".to_string(), "IBAN".to_string()),
    );
    assert_eq!(res.unwrap(), "DE0012 2322 2323".to_string());

    let res = parse(
        "DE012 2322 2323".to_string(),
        regex(r"DE\d{4}\s\d{4}\s\d{4}".to_string(), "IBAN".to_string()),
    );
    assert_eq!(
        res.unwrap_err(),
        "Parser error, expected 'IBAN' at position '0'"
    );

    let res = parse(
        "Bank account: DE012 2322 2323".to_string(),
        regex(r"DE\d{4}\s\d{4}\s\d{4}".to_string(), "IBAN".to_string()),
    );
    assert_eq!(
        res.unwrap_err(),
        "Parser error, expected 'IBAN' at position '0'"
    );
}

#[test]
fn optional_test() {
    let res = parse(
        "Hello World".to_string(),
        optional(string("Hello World".to_string())),
    );
    assert_eq!(res.unwrap(), Some("Hello World".to_string()));

    let res = parse(
        "Hello World".to_string(),
        optional(string("Hallo World".to_string())),
    );
    assert_eq!(res.unwrap(), None);
}

#[test]
fn sequence_test() {
    let res = parse(
        "Hello World".to_string(),
        sequence(string("Hello".to_string()), string(" World".to_string())),
    );
    assert_eq!(res.unwrap(), ("Hello".to_string(), " World".to_string()));

    let res = parse(
        "Hello World".to_string(),
        sequence(string("Hallo".to_string()), string(" World".to_string())),
    );
    assert_eq!(
        res.unwrap_err(),
        "Parser error, expected 'Hallo' at position '0'"
    );

    let res = parse(
        "Hello World".to_string(),
        sequence(string("Hello".to_string()), string("World".to_string())),
    );
    assert_eq!(
        res.unwrap_err(),
        "Parser error, expected 'World' at position '5'"
    );

    let res = parse(
        "Hello World".to_string(),
        sequence(
            sequence(string("Hello".to_string()), string(" ".to_string())),
            string("World".to_string()),
        ),
    );
    assert_eq!(
        res.unwrap(),
        (("Hello".to_string(), " ".to_string()), "World".to_string())
    );
}

#[test]
fn any_test() {
    let res = parse(
        "Hello World".to_string(),
        sequence(
            any(vec![
                string("Hallo".to_string()),
                string("Hello".to_string()),
            ]),
            string(" World".to_string()),
        ),
    );

    assert_eq!(res.unwrap(), ("Hello".to_string(), " World".to_string()));

    let res = parse(
        "Hello World".to_string(),
        sequence(
            any(vec![
                string("Hallo".to_string()),
                string("Hola".to_string()),
            ]),
            string(" World".to_string()),
        ),
    );

    assert_eq!(
        res.unwrap_err(),
        "Parser error, expected 'any()' at position '0'"
    );
}

#[test]
fn map_test() {
    let res = parse(
        "Hello World".to_string(),
        oxvm::parser::map(
            sequence(
                sequence(string("Hello".to_string()), string(" ".to_string())),
                string("World".to_string()),
            ),
            |res| Ok((res.0 .0, res.0 .1, res.1)),
        ),
    );
    assert_eq!(
        res.unwrap(),
        ("Hello".to_string(), " ".to_string(), "World".to_string())
    );

    let res = parse::<Option<String>, _>(
        "Hello World".to_string(),
        oxvm::parser::map(
            sequence(
                sequence(string("Hello".to_string()), string(" ".to_string())),
                string("World".to_string()),
            ),
            |_| Err("mapping()".to_string()),
        ),
    );
    assert_eq!(
        res.unwrap_err(),
        "Parser error, expected 'mapping()' at position '11'"
    );
}

#[test]
fn many_test() {
    let res = parse(
        "Hello World".to_string(),
        many(regex(r".{1}".to_string(), "anything".to_string())),
    );
    assert_eq!(res.unwrap().join(""), "Hello World".to_string());

    let res = parse(
        "Hello World".to_string(),
        many(regex(r"\d{1}".to_string(), "number".to_string())),
    );
    assert_eq!(
        res.unwrap_err(),
        "Parser error, expected 'number' at position '0'"
    );
}

#[test]
fn spaces_test() {
    let res = parse(
        "Hello World".to_string(),
        sequence(
            sequence(string("Hello".to_string()), spaces()),
            string("World".to_string()),
        ),
    );
    assert_eq!(
        res.unwrap(),
        (("Hello".to_string(), " ".to_string()), "World".to_string())
    );

    let res = parse(
        "HelloWorld".to_string(),
        sequence(
            sequence(string("Hello".to_string()), spaces()),
            string("World".to_string()),
        ),
    );
    assert_eq!(
        res.unwrap_err(),
        "Parser error, expected ' ' at position '5'"
    );

    let res = parse(
        "Hello    World".to_string(),
        sequence(
            sequence(string("Hello".to_string()), spaces()),
            string("World".to_string()),
        ),
    );
    assert_eq!(
        res.unwrap(),
        (
            ("Hello".to_string(), "    ".to_string()),
            "World".to_string()
        )
    );
}

#[test]
fn integer_test() {
    let res = parse("123456789".to_string(), integer());
    assert_eq!(res.unwrap(), "123456789");

    let res = parse("a123456789".to_string(), integer());
    assert_eq!(
        res.unwrap_err(),
        "Parser error, expected 'integer' at position '0'"
    );
}

#[test]
fn parsed_integer_test() {
    let res = parse("123456789".to_string(), parsed_integer::<i32>());
    assert_eq!(res.unwrap(), 123456789i32);

    let res = parse("123456789".to_string(), parsed_integer::<u64>());
    assert_eq!(res.unwrap(), 123456789u64);

    let res = parse("123456789".to_string(), parsed_integer::<u8>());
    assert_eq!(
        res.unwrap_err(),
        "Parser error, expected 'parsable integer' at position '9'"
    );

    let res = parse("a123456789".to_string(), parsed_integer::<u32>());
    assert_eq!(
        res.unwrap_err(),
        "Parser error, expected 'integer' at position '0'"
    );
}

#[test]
fn float_test() {
    let res = parse("12345.6789".to_string(), float());
    assert_eq!(res.unwrap(), "12345.6789");

    let res = parse("a1234.56789".to_string(), float());
    assert_eq!(
        res.unwrap_err(),
        "Parser error, expected 'float' at position '0'"
    );
}

#[test]
fn parsed_float_test() {
    let res = parse("12345.6789".to_string(), parsed_float::<f32>());
    assert_eq!(res.unwrap(), 12345.6789f32);

    let res = parse("12345678.9".to_string(), parsed_float::<f64>());
    assert_eq!(res.unwrap(), 12345678.9f64);

    let res = parse("a12345.6789".to_string(), parsed_float::<f32>());
    assert_eq!(
        res.unwrap_err(),
        "Parser error, expected 'float' at position '0'"
    );
}

#[test]
fn expect_test() {
    let res = parse(
        "Hello World".to_string(),
        expect(string("Hello".to_string()), "\"Hello\"".to_string()),
    );
    assert_eq!(res.unwrap(), "Hello".to_string());

    let res = parse(
        "Hello World".to_string(),
        expect(string("Hallo".to_string()), "\"Hallo\"".to_string()),
    );
    assert_eq!(
        res.unwrap_err(),
        "Parser error, expected '\"Hallo\"' at position '0'".to_string()
    );
}
