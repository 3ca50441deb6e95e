use materialx_parser::sources::{
    comes_before, smallest_download, smallest_package, AmbientCg, MatLib, Package,
};

fn package(id: &str, label: &str) -> Package {
    Package { id: id.to_string(), label: label.to_string(), ..Package::default() }
}

#[test]
fn defaults_of_the_catalogues() {
    assert_eq!(MatLib::default().categories, vec!["Cobblestone", "Metal", "Marble", "SciFi"]);
    assert_eq!(AmbientCg::default().limit, 20);
    let p = Package::default();
    assert_eq!(p, package("", ""));
}

#[test]
fn the_package_with_the_first_label_is_taken() {
    assert_eq!(smallest_package(&vec![]), None);
    let packages = vec![package("a", "2k"), package("b", "1k"), package("c", "4k"), package("d", "1k")];
    assert_eq!(smallest_package(&packages), Some(1));
    let mut sorted = packages.clone();
    sorted.sort_by_key(|p| p.label.clone());
    assert_eq!(sorted.first().unwrap().id, packages[1].id);
    let packages = vec![package("a", "1k"), package("b", "1"), package("c", "10k")];
    assert_eq!(smallest_package(&packages), Some(1));
}

#[test]
fn texts_are_ordered_as_strings_are() {
    let texts = vec!["", "a", "ab", "b", "B", "1k", "10k", "2k", "é", "z"];
    for a in &texts {
        for b in &texts {
            assert_eq!(comes_before(a, b), a < b, "on {:?} and {:?}", a, b);
        }
    }
}

#[test]
fn the_smallest_download_is_taken() {
    assert_eq!(smallest_download(&vec![]), None);
    assert_eq!(smallest_download(&vec![5]), Some(0));
    assert_eq!(smallest_download(&vec![5, 3, 9, 3]), Some(1));
    let sizes: Vec<usize> = vec![5, 3, 9, 3];
    let first = sizes.iter().enumerate().min_by_key(|x| *x.1).map(|x| x.0);
    assert_eq!(smallest_download(&sizes), first);
}
