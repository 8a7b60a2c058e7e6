use three_d::context::Context;
use three_d::Error;

#[test]
fn identical_sources_resolve_to_the_same_program() {
    let mut context = Context::new();
    let vs = String::from("in vec3 position;\nvoid main() {}\n");
    let fs = String::from("out vec4 color;\nvoid main() {}\n");
    let first = context.resolve_or_compile(&vs, &fs).unwrap();
    let second = context.resolve_or_compile(&vs, &fs).unwrap();
    assert_eq!(first.id, second.id);
    assert_eq!(context.programs.len(), 1);
}

#[test]
fn differing_sources_produce_independent_entries() {
    let mut context = Context::new();
    let vs = String::from("in vec3 position;\nvoid main() {}\n");
    let fs1 = String::from("out vec4 color;\nvoid main() { color = vec4(1.0); }\n");
    let fs2 = String::from("out vec4 color;\nvoid main() { color = vec4(0.0); }\n");
    let first = context.resolve_or_compile(&vs, &fs1).unwrap();
    let second = context.resolve_or_compile(&vs, &fs2).unwrap();
    assert_ne!(first.id, second.id);
    assert_eq!(context.programs.len(), 2);
}

#[test]
fn failed_compilation_is_not_cached_and_fails_again() {
    let mut context = Context::new();
    let vs = String::from("in vec3 position;\nvoid main() {}\n");
    let broken = String::new();
    let first = context.resolve_or_compile(&vs, &broken);
    assert!(matches!(first, Err(Error::Compile { .. })));
    assert_eq!(context.programs.len(), 0);
    let second = context.resolve_or_compile(&vs, &broken);
    assert!(matches!(second, Err(Error::Compile { .. })));
    assert_eq!(context.programs.len(), 0);
}

#[test]
fn failed_compilation_does_not_corrupt_the_cache() {
    let mut context = Context::new();
    let vs = String::from("in vec3 position;\nvoid main() {}\n");
    let fs = String::from("out vec4 color;\nvoid main() {}\n");
    let good = context.resolve_or_compile(&vs, &fs).unwrap();
    let broken = String::new();
    assert!(context.resolve_or_compile(&broken, &fs).is_err());
    let again = context.resolve_or_compile(&vs, &fs).unwrap();
    assert_eq!(good.id, again.id);
    assert_eq!(context.programs.len(), 1);
}

#[test]
fn uniform_lookup_follows_the_fragment_source() {
    let mut context = Context::new();
    let vs = String::from("in vec3 position;\nvoid main() {}\n");
    let fs = String::from("uniform float metallic;\nvoid main() {}\n");
    let program = context.resolve_or_compile(&vs, &fs).unwrap();
    assert!(program.use_uniform("metallic").is_ok());
    let missing = program.use_uniform("roughness");
    assert!(matches!(missing, Err(Error::Binding { .. })));
}

#[test]
fn fresh_context_is_empty() {
    let context = Context::new();
    assert_eq!(context.programs.len(), 0);
    assert_eq!(context.draws.len(), 0);
}
