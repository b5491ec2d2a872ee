use twurst::generator::{MethodDescriptor, ServiceDescriptor};
use twurst::path_map::{prefixes, sub_path_iter, suffixes, ProtoPathMap};

fn service(package: &str, proto_name: &str) -> ServiceDescriptor {
    ServiceDescriptor {
        name: proto_name.to_string(),
        proto_name: proto_name.to_string(),
        package: package.to_string(),
        deprecated: false,
        comments: Vec::new(),
        methods: Vec::<MethodDescriptor>::new(),
    }
}

#[test]
fn test_prefixes() {
    assert_eq!(
        prefixes(".a.b.c.d"),
        vec![".a.b.c".to_string(), ".a.b".to_string(), ".a".to_string()],
    );
    assert_eq!(prefixes(".a").len(), 0);
    assert_eq!(prefixes(".").len(), 0);
}

#[test]
fn test_suffixes() {
    assert_eq!(
        suffixes(".a.b.c.d"),
        vec![
            "a.b.c.d".to_string(),
            "b.c.d".to_string(),
            "c.d".to_string(),
            "d".to_string()
        ],
    );
    assert_eq!(suffixes(".a"), vec!["a".to_string()]);
    assert_eq!(suffixes("."), Vec::<String>::new());
}

#[test]
fn test_sub_path_iter_order() {
    let subs = sub_path_iter(".a.b.c.d");
    assert_eq!(&subs[0..4], &[".a.b.c.d", "a.b.c.d", "b.c.d", "c.d"]);
    assert_eq!(subs.last().map(|s| s.as_str()), Some("."));
    // the root path is the global path already: nothing follows it
    assert_eq!(sub_path_iter("."), vec![".".to_string()]);
}

#[test]
fn test_get_matches_sub_path() {
    // full path
    let mut path_map: ProtoPathMap<i32> = ProtoPathMap::default();
    path_map.insert(".a.b.c.d".to_owned(), 1);
    assert_eq!(Some(&&1), path_map.fq_path_matches(".a.b.c.d").first());

    // suffix
    let mut path_map: ProtoPathMap<i32> = ProtoPathMap::default();
    path_map.insert("c.d".to_owned(), 1);
    assert_eq!(Some(&&1), path_map.fq_path_matches(".a.b.c.d").first());
    assert_eq!(Some(&&1), path_map.fq_path_matches("b.c.d").first());

    // prefix
    let mut path_map: ProtoPathMap<i32> = ProtoPathMap::default();
    path_map.insert(".a.b".to_owned(), 1);
    assert_eq!(Some(&&1), path_map.fq_path_matches(".a.b.c.d").first());

    // global
    let mut path_map: ProtoPathMap<i32> = ProtoPathMap::default();
    path_map.insert(".".to_owned(), 1);
    assert_eq!(Some(&&1), path_map.fq_path_matches(".a.b.c.d").first());
    assert_eq!(Some(&&1), path_map.fq_path_matches("b.c.d").first());
}

#[test]
fn test_get_keep_order() {
    let mut path_map: ProtoPathMap<i32> = ProtoPathMap::default();
    path_map.insert(".".to_owned(), 1);
    path_map.insert(".a.b".to_owned(), 2);
    path_map.insert(".a.b.c.d".to_owned(), 3);

    let matches = path_map.fq_path_matches(".a.b.c.d");
    assert_eq!(matches, vec![&1, &2, &3]);

    let mut path_map: ProtoPathMap<i32> = ProtoPathMap::default();
    path_map.insert(".a.b.c.d".to_owned(), 1);
    path_map.insert(".a.b".to_owned(), 2);
    path_map.insert(".".to_owned(), 3);

    let matches = path_map.fq_path_matches(".a.b.c.d");
    assert_eq!(matches, vec![&1, &2, &3]);
}

#[test]
fn test_service_matches() {
    // matches paths & all prefixes
    let mut path_map: ProtoPathMap<i32> = ProtoPathMap::default();
    path_map.insert(".".to_owned(), 1);
    path_map.insert(".a.b".to_owned(), 2);
    path_map.insert(".a.b.c.d".to_owned(), 3);

    let svc = service("a.b.c", "d");
    assert_eq!(path_map.service_matches(&svc), vec![&1, &2, &3]);

    // matches just on service name
    let mut path_map: ProtoPathMap<i32> = ProtoPathMap::default();
    path_map.insert("d".to_owned(), 1);
    assert_eq!(path_map.service_matches(&svc), vec![&1]);

    // matches just on path (and others do not)
    let mut path_map: ProtoPathMap<i32> = ProtoPathMap::default();
    path_map.insert(".a.b.c.d".to_owned(), 1);
    assert_eq!(path_map.service_matches(&svc), vec![&1]);

    let alternate = service("a.b.c", "e");
    assert_eq!(path_map.service_matches(&alternate).len(), 0);
}
