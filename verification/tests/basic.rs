use cgns::base::{Base, BaseData};
use cgns::descriptor::DescriptorData;
use cgns::errors::CgnsResult;
use cgns::store::LibraryState;
use cgns::zone::{StructuredZoneSize, Zone, ZoneData, ZoneSize};
use cgns::Library;

fn create_file(lib: &Library, w: &mut LibraryState, path: &str) -> CgnsResult<()> {
    let file = lib.open_write(w, path)?;
    file.close(w)?;
    Ok(())
}

#[test]
fn lib_single_instance() {
    let mut w = LibraryState::new();
    let lib = Library::take(&mut w);
    lib.release(&mut w);
}

#[test]
fn lib_two_instances_sequential() {
    let mut w = LibraryState::new();
    let lib = Library::take(&mut w);
    lib.release(&mut w);

    let lib2 = Library::take(&mut w);
    lib2.release(&mut w);
}

#[test]
fn open_file() {
    let mut w = LibraryState::new();
    let lib = Library::new(&mut w);

    let file = lib.open_write(&mut w, "test.cgns").expect("Failed to open file");

    file.close(&mut w).expect("Failed to close file");
}

#[test]
fn test_goto() {
    let mut w = LibraryState::new();
    let lib = Library::new(&mut w);

    create_file(&lib, &mut w, "goto_test.cgns").expect("Failed to create file");

    let file = lib
        .open_modify(&mut w, "goto_test.cgns")
        .expect("failed to open file");

    let base_index = Base::write(
        &mut w,
        &file,
        &BaseData {
            name: String::from("New Base"),
            cell_dim: 3,
            phys_dim: 3,
        },
    )
    .expect("failed to write base");

    let base = file.get_base(&w, base_index).expect("Failed to get base");

    let path = base.path();
    lib.goto(&mut w, &path).expect("failed to goto path");
    assert_eq!(
        path,
        lib.current_path(&w).expect("failed to get current path")
    );
}

#[test]
fn iter_bases() {
    let mut w = LibraryState::new();
    let lib = Library::new(&mut w);

    create_file(&lib, &mut w, "iter_test.cgns").expect("Failed to create file");

    let file = lib
        .open_modify(&mut w, "iter_test.cgns")
        .expect("failed to open file");

    let mut empty_count = 0;
    let mut empty_iter = file.bases(&w).expect("failed to read number of bases");
    while let Some(_) = empty_iter.next() {
        empty_count += 1;
    }
    assert_eq!(0, empty_count);

    Base::write(
        &mut w,
        &file,
        &BaseData {
            name: String::from("New Base 1"),
            cell_dim: 3,
            phys_dim: 3,
        },
    )
    .expect("failed to write base");

    Base::write(
        &mut w,
        &file,
        &BaseData {
            name: String::from("New Base 2"),
            cell_dim: 3,
            phys_dim: 3,
        },
    )
    .expect("failed to write base");

    Base::write(
        &mut w,
        &file,
        &BaseData {
            name: String::from("New Base 3"),
            cell_dim: 3,
            phys_dim: 3,
        },
    )
    .expect("failed to write base");

    let mut n = 0;
    let mut iter = file.bases(&w).expect("failed to read number of bases");
    while let Some(base) = iter.next() {
        println!("base: {:#?}", base.read(&w).expect("failed to read base"));
        n += 1;
    }

    assert_eq!(n, 3);
}

#[test]
fn read_write_base_and_descriptor() {
    let mut w = LibraryState::new();
    let lib = Library::new(&mut w);

    create_file(&lib, &mut w, "base_test.cgns").expect("Failed to create file");

    let file = lib
        .open_modify(&mut w, "base_test.cgns")
        .expect("Failed to open file");

    let base_data = BaseData {
        name: String::from("New Base"),
        cell_dim: 3,
        phys_dim: 3,
    };

    let base_index = Base::write(&mut w, &file, &base_data).expect("failed to write base");

    let base = file.get_base(&w, base_index).expect("failed to get base");

    let data = base.read(&w).expect("failed to read base");

    assert_eq!(data, base_data);

    let descriptor_data = DescriptorData {
        name: String::from("TestDescriptor"),
        value: String::from("Test Value"),
    };

    base.set_descriptor(&mut w, &descriptor_data)
        .expect("Failed to write descriptor");

    let descriptor = base
        .get_descriptor(&mut w, 1)
        .expect("Failed to read descriptor Node");

    assert_eq!(
        descriptor.read(&mut w).expect("Failed to read descriptor"),
        descriptor_data
    );
}

#[test]
fn read_write_zone_and_descriptor() {
    let mut w = LibraryState::new();
    let lib = Library::new(&mut w);

    create_file(&lib, &mut w, "desc_test.cgns").expect("Failed to create file");

    let file = lib
        .open_modify(&mut w, "desc_test.cgns")
        .expect("Failed to open file");

    let base_data = BaseData {
        name: String::from("New Base"),
        cell_dim: 3,
        phys_dim: 3,
    };

    let base_index = Base::write(&mut w, &file, &base_data).expect("failed to write base");

    let base = file.get_base(&w, base_index).expect("failed to get base");

    let zone_data = ZoneData {
        name: String::from("Zone_0001"),
        size: ZoneSize::Structured(StructuredZoneSize {
            n_cell: (9, 9, 9),
            n_vertex: (10, 10, 10),
        }),
    };

    let zone_index = Zone::write(&mut w, &base, &zone_data).expect("Failed to write Zone");

    let zone = Zone::new(&base, &w, zone_index).expect("Failed to read Zone Node");

    assert_eq!(zone.read(&w).expect("Failed to read Zone"), zone_data);

    let descriptor_data = DescriptorData {
        name: String::from("TestDescriptor"),
        value: String::from("Test Value"),
    };

    zone.set_descriptor(&mut w, &descriptor_data)
        .expect("Failed to write descriptor");

    let descriptor = zone
        .get_descriptor(&mut w, 1)
        .expect("Failed to read descriptor Node");

    assert_eq!(
        descriptor.read(&mut w).expect("Failed to read descriptor"),
        descriptor_data
    );
}
