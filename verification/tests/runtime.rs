use easyerr::{ErrorContext, ResultExt};

#[derive(Debug, PartialEq)]
struct Base(u32);

#[derive(Debug, PartialEq)]
struct Wrapped {
    code: u32,
    cause: Base,
}

struct Ctx {
    code: u32,
}

impl ErrorContext for Ctx {
    type Source = Base;
    type Err = Wrapped;

    // The specification member of the trait is erased from compiled
    // code and never called at run time; an implementor outside the
    // library supplies a stub.
    fn spec_add_to_source(self, _source: Base) -> Wrapped {
        unreachable!()
    }

    fn add_to_source(self, source: Base) -> Wrapped {
        Wrapped { code: self.code, cause: source }
    }
}

#[test]
fn context_attaches_to_the_error() {
    let r: Result<i32, Base> = Err(Base(7));
    let out = r.context(Ctx { code: 1 });
    assert_eq!(out, Err(Wrapped { code: 1, cause: Base(7) }));
}

#[test]
fn context_passes_success_through() {
    let r: Result<i32, Base> = Ok(5);
    let out = r.context(Ctx { code: 1 });
    assert_eq!(out, Ok(5));
}

#[test]
fn with_context_builds_the_context_from_the_error() {
    let r: Result<i32, Base> = Err(Base(7));
    let out = r.with_context(|e: &Base| Ctx { code: e.0 + 1 });
    assert_eq!(out, Err(Wrapped { code: 8, cause: Base(7) }));
}

#[test]
fn with_context_passes_success_through() {
    let r: Result<i32, Base> = Ok(9);
    let out = r.with_context(|e: &Base| Ctx { code: e.0 });
    assert_eq!(out, Ok(9));
}
