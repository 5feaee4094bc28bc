use polylink::dao::{generate_link_path, path_from_indices, PathGenerator, RandomPathGenerator};

#[test]
fn indices_spell_the_alphabet_in_order() {
    let indices: Vec<usize> = (0..36).collect();
    let spelled = path_from_indices(&indices);
    assert_eq!(spelled, "ABCDEFGHIJKLMNOPQRSTUVWXYZ0123456789");
}

#[test]
fn a_full_index_script_spells_an_exact_path() {
    let indices: Vec<usize> = vec![
        0, 25, 26, 35, 1, 2, 3, 4, 5, 6, 7, 8, 9, 10, 11, 12, 13, 14, 15, 16, 17, 18, 19, 20,
    ];
    let spelled = path_from_indices(&indices);
    assert_eq!(spelled, "AZ09BCDEFGHIJKLMNOPQRSTU");
    assert_eq!(spelled.len(), 24);
}

#[test]
fn generated_paths_have_fixed_length_and_alphabet() {
    for _ in 0..200 {
        let p = generate_link_path();
        assert_eq!(p.len(), 24);
        assert!(p.chars().all(|c| matches!(c, 'A'..='Z' | '0'..='9')));
    }
}

#[test]
fn generator_trait_produces_valid_paths() {
    let mut g = RandomPathGenerator;
    for _ in 0..50 {
        let p = g.generate();
        assert_eq!(p.len(), 24);
        assert!(p.chars().all(|c| matches!(c, 'A'..='Z' | '0'..='9')));
    }
}

#[test]
fn successive_paths_differ() {
    let a = generate_link_path();
    let b = generate_link_path();
    let c = generate_link_path();
    assert_ne!(a, b);
    assert_ne!(b, c);
    assert_ne!(a, c);
}
