use sph::params::Params;

#[test]
fn it_works() {
    assert_eq!(2 + 2, 4);
}

#[test]
fn lib_it_works() {
    assert_eq!(2 + 2, 4);
}

#[test]
fn lib2_it_works() {
    assert_eq!(2 + 2, 4);
}

#[test]
fn default_config_is_accepted() {
    let p = Params::default_config();
    assert_eq!(p.radius, 5000);
    assert_eq!(p.h, 20000);
    assert_eq!(p.h2, 400);
    assert_eq!(p.mass, 20000);
    assert_eq!(p.rest_density, 1000000000);
    assert_eq!(p.stiffness, 2000000000);
    assert_eq!(p.viscosity, 3000000000);
    assert_eq!(p.gravity, -9800000);
    assert_eq!(p.damping, -500000);
    assert_eq!(p.dt, 1000);
    assert_eq!(p.width, 1000000);
    assert_eq!(p.height, 1000000);
}
