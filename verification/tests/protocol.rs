use cgns::base::{Base, BaseData};
use cgns::descriptor::DescriptorData;
use cgns::errors::{to_cgns_result, CgnsError, CgnsErrorKind};
use cgns::node::{check_sibling_index, NodeIter};
use cgns::ordinal::OrdinalData;
use cgns::simulation_type::{SimulationType, SimulationTypeData};
use cgns::store::LibraryState;
use cgns::types::{CgnsFileType, CgnsNodeLabel, CgnsOpenMode, CgnsPath};
use cgns::zone::{StructuredZoneSize, UnstructuredZoneSize, Zone, ZoneData, ZoneSize};
use cgns::Library;

#[test]
fn sibling_index_accepted_iff_in_range() {
    assert!(check_sibling_index(3, 1).is_ok());
    assert!(check_sibling_index(3, 2).is_ok());
    assert!(check_sibling_index(3, 3).is_ok());
    assert_eq!(
        check_sibling_index(3, 0).unwrap_err().kind,
        CgnsErrorKind::OutOfBounds
    );
    assert_eq!(
        check_sibling_index(3, 4).unwrap_err().kind,
        CgnsErrorKind::OutOfBounds
    );
    assert_eq!(
        check_sibling_index(0, 1).unwrap_err().kind,
        CgnsErrorKind::OutOfBounds
    );
    assert_eq!(
        check_sibling_index(3, -1).unwrap_err().kind,
        CgnsErrorKind::OutOfBounds
    );
}

#[test]
fn get_base_out_of_range_is_out_of_bounds() {
    let mut w = LibraryState::new();
    let lib = Library::new(&mut w);
    let file = lib.open_write(&mut w, "bounds.cgns").expect("open");
    let base_data = BaseData {
        name: String::from("B"),
        cell_dim: 2,
        phys_dim: 2,
    };
    let idx = Base::write(&mut w, &file, &base_data).expect("write");
    assert_eq!(idx, 1);
    file.close(&mut w).expect("close");

    let file = lib.open_modify(&mut w, "bounds.cgns").expect("reopen");
    assert!(file.get_base(&w, 1).is_ok());
    assert_eq!(
        file.get_base(&w, 0).unwrap_err().kind,
        CgnsErrorKind::OutOfBounds
    );
    assert_eq!(
        file.get_base(&w, 2).unwrap_err().kind,
        CgnsErrorKind::OutOfBounds
    );
    let base = file.get_base(&w, 1).expect("base");
    assert_eq!(
        base.get_zone(&w, 1).unwrap_err().kind,
        CgnsErrorKind::OutOfBounds
    );
    assert_eq!(
        base.get_descriptor(&mut w, 1).unwrap_err().kind,
        CgnsErrorKind::OutOfBounds
    );
}

#[test]
fn iterator_yields_indices_in_order() {
    let mut it = NodeIter::new(3);
    assert_eq!(it.next(), Some(1));
    assert_eq!(it.next(), Some(2));
    assert_eq!(it.next(), Some(3));
    assert_eq!(it.next(), None);
    assert_eq!(it.next(), None);

    let mut empty = NodeIter::new(0);
    assert_eq!(empty.next(), None);
}

#[test]
fn lease_second_acquire_fails_until_release() {
    let mut w = LibraryState::new();
    let first = Library::try_take(&mut w).expect("first lease");
    assert!(Library::try_take(&mut w).is_none());
    first.release(&mut w);
    let second = Library::try_take(&mut w).expect("lease after release");
    second.release(&mut w);
}

#[test]
fn cursor_round_trip_on_zone_path() {
    let mut w = LibraryState::new();
    let lib = Library::new(&mut w);
    let file = lib.open_write(&mut w, "roundtrip.cgns").expect("open");
    let base_data = BaseData {
        name: String::from("B"),
        cell_dim: 3,
        phys_dim: 3,
    };
    let bidx = Base::write(&mut w, &file, &base_data).expect("write base");
    let base = Base::new(&file, &w, bidx).expect("base");
    let zone_data = ZoneData {
        name: String::from("Z"),
        size: ZoneSize::Structured(StructuredZoneSize {
            n_vertex: (2, 2, 2),
            n_cell: (1, 1, 1),
        }),
    };
    let zidx = Zone::write(&mut w, &base, &zone_data).expect("write zone");
    let zone = Zone::new(&base, &w, zidx).expect("zone");

    let path = zone.path();
    lib.goto(&mut w, &path).expect("goto");
    let back = lib.current_path(&w).expect("current path");
    assert_eq!(path, back);
}

#[test]
fn cursor_round_trip_fails_on_reserved_custom_label() {
    // A custom label spelled like a reserved one is read back as the
    // reserved variant, so the round trip does not hold for it.
    let mut w = LibraryState::new();
    let lib = Library::new(&mut w);
    let file = lib.open_write(&mut w, "alias.cgns").expect("open");
    let base_data = BaseData {
        name: String::from("B"),
        cell_dim: 3,
        phys_dim: 3,
    };
    let bidx = Base::write(&mut w, &file, &base_data).expect("write base");
    let base = Base::new(&file, &w, bidx).expect("base");
    let zone_data = ZoneData {
        name: String::from("Z"),
        size: ZoneSize::Structured(StructuredZoneSize {
            n_vertex: (2, 2, 2),
            n_cell: (1, 1, 1),
        }),
    };
    let zidx = Zone::write(&mut w, &base, &zone_data).expect("write zone");

    let path = CgnsPath {
        file_number: file.file_number(),
        base_index: bidx,
        nodes: vec![(CgnsNodeLabel::Custom(String::from("Zone_t")), zidx)],
    };
    lib.goto(&mut w, &path).expect("goto resolves by the label's spelling");
    let back = lib.current_path(&w).expect("current path");
    assert_ne!(path, back);
    assert_eq!(back.nodes[0].0, CgnsNodeLabel::Zone);
}

#[test]
fn goto_rejects_unresolvable_and_nul_paths() {
    let mut w = LibraryState::new();
    let lib = Library::new(&mut w);
    let file = lib.open_write(&mut w, "goto_err.cgns").expect("open");

    // no base 1 exists yet
    let missing = CgnsPath {
        file_number: file.file_number(),
        base_index: 1,
        nodes: vec![],
    };
    assert_eq!(
        lib.goto(&mut w, &missing).unwrap_err().kind,
        CgnsErrorKind::Library
    );

    // an embedded nul cannot be rendered as a C string
    let nul_label = CgnsPath {
        file_number: file.file_number(),
        base_index: 1,
        nodes: vec![(CgnsNodeLabel::Custom(String::from("bad\0label")), 1)],
    };
    assert_eq!(
        lib.goto(&mut w, &nul_label).unwrap_err().kind,
        CgnsErrorKind::ConversionError
    );

    // no cursor has ever been set
    assert_eq!(
        lib.current_path(&w).unwrap_err().kind,
        CgnsErrorKind::Library
    );
}

#[test]
fn open_errors() {
    let mut w = LibraryState::new();
    let lib = Library::new(&mut w);
    assert_eq!(
        lib.open_read(&mut w, "missing.cgns").unwrap_err().kind,
        CgnsErrorKind::Library
    );
    assert_eq!(
        lib.open_modify(&mut w, "missing.cgns").unwrap_err().kind,
        CgnsErrorKind::Library
    );
    assert_eq!(
        lib.open_write(&mut w, "bad\0name.cgns").unwrap_err().kind,
        CgnsErrorKind::ConversionError
    );
}

#[test]
fn write_rejects_embedded_nul() {
    let mut w = LibraryState::new();
    let lib = Library::new(&mut w);
    let file = lib.open_write(&mut w, "nul.cgns").expect("open");
    let bad = BaseData {
        name: String::from("bad\0base"),
        cell_dim: 3,
        phys_dim: 3,
    };
    assert_eq!(
        Base::write(&mut w, &file, &bad).unwrap_err().kind,
        CgnsErrorKind::ConversionError
    );
    let good = BaseData {
        name: String::from("B"),
        cell_dim: 3,
        phys_dim: 3,
    };
    let bidx = Base::write(&mut w, &file, &good).expect("write base");
    let base = Base::new(&file, &w, bidx).expect("base");
    let bad_descriptor = DescriptorData {
        name: String::from("D"),
        value: String::from("v\0v"),
    };
    assert_eq!(
        base.set_descriptor(&mut w, &bad_descriptor).unwrap_err().kind,
        CgnsErrorKind::ConversionError
    );
}

#[test]
fn reopen_and_read_base() {
    let mut w = LibraryState::new();
    let lib = Library::new(&mut w);
    let file = lib.open_write(&mut w, "reopen.cgns").expect("open write");
    let base_data = BaseData {
        name: String::from("New Base"),
        cell_dim: 3,
        phys_dim: 3,
    };
    let idx = Base::write(&mut w, &file, &base_data).expect("write base");
    file.close(&mut w).expect("close");

    let file = lib.open_modify(&mut w, "reopen.cgns").expect("open modify");
    let base = file.get_base(&w, idx).expect("base");
    assert_eq!(base.read(&w).expect("read base"), base_data);
    assert_eq!(base.dim(&w).expect("dim"), 3);
}

#[test]
fn bases_iterate_in_insertion_order() {
    let mut w = LibraryState::new();
    let lib = Library::new(&mut w);
    let file = lib.open_write(&mut w, "order.cgns").expect("open");
    for name in ["first", "second", "third"] {
        let data = BaseData {
            name: String::from(name),
            cell_dim: 3,
            phys_dim: 3,
        };
        Base::write(&mut w, &file, &data).expect("write base");
    }
    file.close(&mut w).expect("close");
    let file = lib.open_read(&mut w, "order.cgns").expect("open read");
    assert_eq!(file.n_bases(&w).expect("count"), 3);
    let mut iter = file.bases(&w).expect("iterate");
    let mut names = Vec::new();
    while let Some(base) = iter.next() {
        names.push(base.read(&w).expect("read").name);
    }
    assert_eq!(names, vec!["first", "second", "third"]);
}

#[test]
fn open_write_replaces_existing_contents() {
    let mut w = LibraryState::new();
    let lib = Library::new(&mut w);
    let file = lib.open_write(&mut w, "truncate.cgns").expect("open");
    let data = BaseData {
        name: String::from("B"),
        cell_dim: 3,
        phys_dim: 3,
    };
    Base::write(&mut w, &file, &data).expect("write base");
    file.close(&mut w).expect("close");

    let file = lib.open_write(&mut w, "truncate.cgns").expect("reopen write");
    assert_eq!(file.file_number(), 2);
    file.close(&mut w).expect("close");
    let file = lib.open_read(&mut w, "truncate.cgns").expect("open read");
    assert_eq!(file.n_bases(&w).expect("count"), 0);
}

#[test]
fn zone_size_buffer_layout() {
    let mut w = LibraryState::new();
    let lib = Library::new(&mut w);
    let created = lib.open_write(&mut w, "buffer.cgns").expect("create");
    created.close(&mut w).expect("close");
    let file = lib.open_modify(&mut w, "buffer.cgns").expect("open");
    let data = BaseData {
        name: String::from("B"),
        cell_dim: 3,
        phys_dim: 3,
    };
    let bidx = Base::write(&mut w, &file, &data).expect("write base");
    let base = Base::new(&file, &w, bidx).expect("base");

    let structured = ZoneData {
        name: String::from("S"),
        size: ZoneSize::Structured(StructuredZoneSize {
            n_vertex: (10, 11, 12),
            n_cell: (9, 10, 11),
        }),
    };
    Zone::write(&mut w, &base, &structured).expect("write zone");
    assert_eq!(w.stores[0].bases[0].zones[0].zone_type, 2);
    assert_eq!(
        w.stores[0].bases[0].zones[0].size,
        vec![10, 11, 12, 9, 10, 11, 0, 0, 0]
    );

    let unstructured = ZoneData {
        name: String::from("U"),
        size: ZoneSize::Unstructured(UnstructuredZoneSize {
            n_vertex: (4, 5, 6),
            n_cell: (3, 4, 5),
            n_bound_vertex: (1, 2, 3),
        }),
    };
    let zidx = Zone::write(&mut w, &base, &unstructured).expect("write zone");
    assert_eq!(w.stores[0].bases[0].zones[1].zone_type, 3);
    assert_eq!(
        w.stores[0].bases[0].zones[1].size,
        vec![4, 5, 6, 3, 4, 5, 1, 2, 3]
    );
    let zone = Zone::new(&base, &w, zidx).expect("zone");
    assert_eq!(zone.read(&w).expect("read zone"), unstructured);
    assert_eq!(zone.index_dim(&w).expect("index dim"), 1);
    let first = Zone::new(&base, &w, 1).expect("zone one");
    assert_eq!(first.index_dim(&w).expect("index dim"), 3);
}

#[test]
fn corrupt_zone_type_is_invalid_library_result() {
    let mut w = LibraryState::new();
    let lib = Library::new(&mut w);
    let created = lib.open_write(&mut w, "corrupt.cgns").expect("create");
    created.close(&mut w).expect("close");
    let file = lib.open_modify(&mut w, "corrupt.cgns").expect("open");
    let data = BaseData {
        name: String::from("B"),
        cell_dim: 3,
        phys_dim: 3,
    };
    let bidx = Base::write(&mut w, &file, &data).expect("write base");
    let base = Base::new(&file, &w, bidx).expect("base");
    let zone_data = ZoneData {
        name: String::from("Z"),
        size: ZoneSize::Structured(StructuredZoneSize {
            n_vertex: (2, 2, 2),
            n_cell: (1, 1, 1),
        }),
    };
    let zidx = Zone::write(&mut w, &base, &zone_data).expect("write zone");
    // an external writer may have left a zone-type code outside the known set
    w.stores[0].bases[0].zones[0].zone_type = 99;
    let zone = Zone::new(&base, &w, zidx).expect("zone");
    assert_eq!(
        zone.read(&w).unwrap_err().kind,
        CgnsErrorKind::InvalidLibraryResult
    );
    assert_eq!(
        zone.index_dim(&w).unwrap_err().kind,
        CgnsErrorKind::InvalidLibraryResult
    );
}

#[test]
fn simulation_type_round_trip_and_errors() {
    let mut w = LibraryState::new();
    let lib = Library::new(&mut w);
    let created = lib.open_write(&mut w, "sim.cgns").expect("create");
    created.close(&mut w).expect("close");
    let file = lib.open_modify(&mut w, "sim.cgns").expect("open");
    let data = BaseData {
        name: String::from("B"),
        cell_dim: 3,
        phys_dim: 3,
    };
    let bidx = Base::write(&mut w, &file, &data).expect("write base");
    let base = Base::new(&file, &w, bidx).expect("base");
    let node = SimulationType::new(&base);

    // reading before any simulation type was written fails at the cursor move
    assert_eq!(node.read(&mut w).unwrap_err().kind, CgnsErrorKind::Library);

    SimulationType::write(&mut w, &base, &SimulationTypeData::TimeAccurate).expect("write");
    assert_eq!(w.stores[0].bases[0].simulation_type, Some(2));
    assert_eq!(node.read(&mut w).expect("read"), SimulationTypeData::TimeAccurate);

    SimulationType::write(&mut w, &base, &SimulationTypeData::NonTimeAccurate).expect("write");
    assert_eq!(node.read(&mut w).expect("read"), SimulationTypeData::NonTimeAccurate);

    // an external writer may have left a category code outside the known set
    w.stores[0].bases[0].simulation_type = Some(42);
    assert_eq!(
        node.read(&mut w).unwrap_err().kind,
        CgnsErrorKind::InvalidLibraryResult
    );
}

#[test]
fn ordinal_round_trip() {
    let mut w = LibraryState::new();
    let lib = Library::new(&mut w);
    let created = lib.open_write(&mut w, "ordinal.cgns").expect("create");
    created.close(&mut w).expect("close");
    let file = lib.open_modify(&mut w, "ordinal.cgns").expect("open");
    let data = BaseData {
        name: String::from("B"),
        cell_dim: 3,
        phys_dim: 3,
    };
    let bidx = Base::write(&mut w, &file, &data).expect("write base");
    let base = Base::new(&file, &w, bidx).expect("base");

    let node = base.ordinal();
    assert_eq!(node.read(&mut w).unwrap_err().kind, CgnsErrorKind::Library);

    base.set_ordinal(&mut w, &OrdinalData(17)).expect("set ordinal");
    assert_eq!(node.read(&mut w).expect("read ordinal"), OrdinalData(17));

    let zone_data = ZoneData {
        name: String::from("Z"),
        size: ZoneSize::Structured(StructuredZoneSize {
            n_vertex: (2, 2, 2),
            n_cell: (1, 1, 1),
        }),
    };
    let zidx = Zone::write(&mut w, &base, &zone_data).expect("write zone");
    let zone = Zone::new(&base, &w, zidx).expect("zone");
    zone.set_ordinal(&mut w, &OrdinalData(4)).expect("set zone ordinal");
    assert_eq!(zone.ordinal().read(&mut w).expect("read"), OrdinalData(4));
    assert_eq!(zone.n_descriptors(&mut w).expect("count"), 0);
}

#[test]
fn error_constructors_and_result_conversion() {
    assert!(to_cgns_result(0, String::from("ignored")).is_ok());
    let err = to_cgns_result(5, String::from("boom")).unwrap_err();
    assert_eq!(err.kind, CgnsErrorKind::Library);
    let cause = err.cause.expect("cause");
    assert_eq!(cause.ier, 5);
    assert_eq!(cause.message, "boom");
    assert_eq!(CgnsError::out_of_bounds().kind, CgnsErrorKind::OutOfBounds);
    assert_eq!(
        CgnsError::invalid_lib_result().kind,
        CgnsErrorKind::InvalidLibraryResult
    );
    assert_eq!(CgnsError::node_not_found().kind, CgnsErrorKind::NodeNotFound);
}

#[test]
fn path_parent_drops_the_last_step() {
    let mut w = LibraryState::new();
    let lib = Library::new(&mut w);
    let file = lib.open_write(&mut w, "parent.cgns").expect("open");
    let data = BaseData {
        name: String::from("B"),
        cell_dim: 3,
        phys_dim: 3,
    };
    let bidx = Base::write(&mut w, &file, &data).expect("write base");
    let base = Base::new(&file, &w, bidx).expect("base");
    let zone_data = ZoneData {
        name: String::from("Z"),
        size: ZoneSize::Structured(StructuredZoneSize {
            n_vertex: (2, 2, 2),
            n_cell: (1, 1, 1),
        }),
    };
    let zidx = Zone::write(&mut w, &base, &zone_data).expect("write zone");
    let zone = Zone::new(&base, &w, zidx).expect("zone");

    assert_eq!(zone.path().parent(), Some(base.path()));
    assert_eq!(base.path().parent(), None);
}

#[test]
fn labels_render_as_documented() {
    assert_eq!(CgnsNodeLabel::Zone.as_string(), "Zone_t");
    assert_eq!(CgnsNodeLabel::Base.as_string(), "CGNSBase_t");
    assert_eq!(CgnsNodeLabel::SimulationType.as_string(), "SimulationType_t");
    assert_eq!(CgnsNodeLabel::Descriptor.as_string(), "Descriptor_t");
    assert_eq!(CgnsNodeLabel::Ordinal.as_string(), "Ordinal_t");
    assert_eq!(
        CgnsNodeLabel::Custom(String::from("Family_t")).as_string(),
        "Family_t"
    );
}

#[test]
fn dynamic_mode_grants_both_capabilities() {
    let mut w = LibraryState::new();
    let lib = Library::new(&mut w);
    assert_eq!(
        lib.open_dynamic(&mut w, "dynamic.cgns", CgnsOpenMode::Read)
            .unwrap_err()
            .kind,
        CgnsErrorKind::Library
    );
    let file = lib
        .open_dynamic(&mut w, "dynamic.cgns", CgnsOpenMode::Write)
        .expect("open");
    let data = BaseData {
        name: String::from("B"),
        cell_dim: 3,
        phys_dim: 3,
    };
    let idx = Base::write(&mut w, &file, &data).expect("write base");
    let base = file.get_base(&w, idx).expect("base");
    assert_eq!(base.read(&w).expect("read base"), data);
}

#[test]
fn save_as_copies_the_store_contents() {
    let mut w = LibraryState::new();
    let lib = Library::new(&mut w);
    let file = lib.open_write(&mut w, "source.cgns").expect("open");
    let data = BaseData {
        name: String::from("Saved Base"),
        cell_dim: 2,
        phys_dim: 3,
    };
    Base::write(&mut w, &file, &data).expect("write base");
    file.save_as(&mut w, "copy.cgns", CgnsFileType::HDF5, false)
        .expect("save as");
    assert_eq!(
        file.save_as(&mut w, "bad\0copy.cgns", CgnsFileType::HDF5, false)
            .unwrap_err()
            .kind,
        CgnsErrorKind::ConversionError
    );
    file.close(&mut w).expect("close");

    let copy = lib.open_read(&mut w, "copy.cgns").expect("open copy");
    assert_eq!(copy.n_bases(&w).expect("count"), 1);
    let base = copy.get_base(&w, 1).expect("base");
    assert_eq!(base.read(&w).expect("read"), data);
}

#[test]
fn goto_truncates_overlong_paths() {
    let mut w = LibraryState::new();
    let lib = Library::new(&mut w);
    let file = lib.open_write(&mut w, "deep.cgns").expect("open");
    let data = BaseData {
        name: String::from("B"),
        cell_dim: 3,
        phys_dim: 3,
    };
    let bidx = Base::write(&mut w, &file, &data).expect("write base");
    // far deeper than the greatest supported depth: the trailing elements
    // are cut off, and what is left resolves to no node
    let mut nodes = Vec::new();
    for i in 1..=25 {
        nodes.push((CgnsNodeLabel::Custom(String::from("Level_t")), i));
    }
    let deep = CgnsPath {
        file_number: file.file_number(),
        base_index: bidx,
        nodes,
    };
    assert_eq!(
        lib.goto(&mut w, &deep).unwrap_err().kind,
        CgnsErrorKind::Library
    );
}

#[test]
fn bases_with_equal_names_keep_their_order() {
    let mut w = LibraryState::new();
    let lib = Library::new(&mut w);
    let file = lib.open_write(&mut w, "twins.cgns").expect("open");
    let data = BaseData {
        name: String::from("Twin"),
        cell_dim: 2,
        phys_dim: 2,
    };
    assert_eq!(Base::write(&mut w, &file, &data).expect("write"), 1);
    assert_eq!(Base::write(&mut w, &file, &data).expect("write"), 2);
    file.close(&mut w).expect("close");
    let file = lib.open_read(&mut w, "twins.cgns").expect("open read");
    assert_eq!(file.n_bases(&w).expect("count"), 2);
    let first = file.get_base(&w, 1).expect("base one");
    let second = file.get_base(&w, 2).expect("base two");
    assert_eq!(first.read(&w).expect("read"), data);
    assert_eq!(second.read(&w).expect("read"), data);
}
