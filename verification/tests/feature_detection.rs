use safer_ring::advanced::{DirectProbeDetector, FeatureDetector, KernelVersion};
use safer_ring::error::{IoErrorKind, SaferRingError};

const RELEASE: &str = "6.8.0-45-generic";

#[test]
fn test_kernel_version_parsing() {
    let (major, minor, patch) = FeatureDetector::parse_kernel_version("5.19.0").unwrap();
    assert_eq!(major, 5);
    assert_eq!(minor, 19);
    assert_eq!(patch, 0);

    let (major, minor, patch) = FeatureDetector::parse_kernel_version("6.1.12-arch1").unwrap();
    assert_eq!(major, 6);
    assert_eq!(minor, 1);
    assert_eq!(patch, 12);
}

#[test]
fn test_kernel_version_comparison() {
    let v1 = KernelVersion {
        major: 5,
        minor: 19,
        patch: 0,
    };
    let v2 = KernelVersion {
        major: 6,
        minor: 0,
        patch: 0,
    };

    assert!(v1 < v2);
    assert!(v2 > v1);
    assert_eq!(v1, v1);
    assert!(v2.is_at_least(&v1));
    assert!(!v1.is_at_least(&v2));
}

#[test]
fn test_feature_detection() {
    let detector = FeatureDetector::new(RELEASE).unwrap();

    assert!(detector.kernel_version.major > 0);

    let _has_buffer_selection = detector.has_feature("buffer_selection");
    let _available_features = detector.available_features();

    assert!(!detector.has_feature("unknown_feature"));
}

#[test]
fn test_feature_version_requirements() {
    let old_kernel = KernelVersion {
        major: 5,
        minor: 0,
        patch: 0,
    };
    let features = FeatureDetector::probe_features(&old_kernel);

    assert!(!features.fixed_files);
    assert!(!features.multi_shot);
    assert!(!features.buffer_selection);

    let new_kernel = KernelVersion {
        major: 6,
        minor: 5,
        patch: 0,
    };
    let features = FeatureDetector::probe_features(&new_kernel);

    assert!(features.fixed_files);
    assert!(features.multi_shot);
    assert!(features.buffer_selection);
    assert!(features.coop_taskrun);
}

#[test]
fn test_kernel_61_features() {
    let kernel_61 = KernelVersion {
        major: 6,
        minor: 1,
        patch: 0,
    };
    let features = FeatureDetector::probe_features(&kernel_61);

    assert!(features.advanced_task_work);
    assert!(features.defer_async_work);

    assert!(!features.send_zc_reporting);
    assert!(!features.multishot_completion_batching);
}

#[test]
fn test_kernel_62_features() {
    let kernel_62 = KernelVersion {
        major: 6,
        minor: 2,
        patch: 0,
    };
    let features = FeatureDetector::probe_features(&kernel_62);

    assert!(features.advanced_task_work);
    assert!(features.defer_async_work);

    assert!(features.send_zc_reporting);
    assert!(features.multishot_completion_batching);
    assert!(features.epoll_uring_wake);

    assert!(!features.registered_ring_fd);
}

#[test]
fn test_kernel_66_features() {
    let kernel_66 = KernelVersion {
        major: 6,
        minor: 6,
        patch: 0,
    };
    let features = FeatureDetector::probe_features(&kernel_66);

    assert!(features.async_cancel_op);
    assert!(features.socket_command_support);
    assert!(features.sysctl_disable_support);
    assert!(features.direct_io_optimizations);

    assert!(!features.msg_ring_speedup);
    assert!(!features.native_bind_listen);
}

#[test]
fn test_kernel_612_features() {
    let kernel_612 = KernelVersion {
        major: 6,
        minor: 12,
        patch: 0,
    };
    let features = FeatureDetector::probe_features(&kernel_612);

    assert!(features.improved_huge_pages);
    assert!(features.async_discard);
    assert!(features.minimum_timeout_waits);
    assert!(features.absolute_timeouts);
    assert!(features.incremental_buffer_consumption);
    assert!(features.registered_buffer_cloning);

    assert!(features.async_cancel_op);
    assert!(features.msg_ring_speedup);
    assert!(features.native_bind_listen);
}

#[test]
fn test_has_feature_new_features() {
    let detector = FeatureDetector::new(RELEASE).unwrap();

    let new_features = vec![
        "advanced_task_work",
        "defer_async_work",
        "send_zc_reporting",
        "multishot_completion_batching",
        "epoll_uring_wake",
        "registered_ring_fd",
        "multishot_timeouts",
        "user_allocated_ring_memory",
        "async_cancel_op",
        "socket_command_support",
        "sysctl_disable_support",
        "direct_io_optimizations",
        "msg_ring_speedup",
        "native_bind_listen",
        "improved_huge_pages",
        "async_discard",
        "minimum_timeout_waits",
        "absolute_timeouts",
        "incremental_buffer_consumption",
        "registered_buffer_cloning",
    ];

    for feature in new_features {
        let _ = detector.has_feature(feature);
    }

    assert!(!detector.has_feature("unknown_new_feature"));
}

#[test]
fn test_available_features_includes_new_features() {
    let new_kernel = KernelVersion {
        major: 6,
        minor: 12,
        patch: 0,
    };
    let features = FeatureDetector::probe_features(&new_kernel);
    let detector = FeatureDetector {
        kernel_version: new_kernel,
        features,
    };

    let available = detector.available_features();

    assert!(available.contains(&"advanced_task_work"));
    assert!(available.contains(&"async_cancel_op"));
    assert!(available.contains(&"improved_huge_pages"));

    assert!(available.len() > 10);
}

#[test]
fn test_create_optimal_config_new_features() {
    let new_kernel = KernelVersion {
        major: 6,
        minor: 12,
        patch: 0,
    };
    let features = FeatureDetector::probe_features(&new_kernel);
    let detector = FeatureDetector {
        kernel_version: new_kernel,
        features,
    };

    let config = detector.create_optimal_config();

    assert!(config.advanced_task_work);
    assert!(config.async_cancel_op);
    assert!(config.improved_huge_pages);

    assert!(!config.defer_async_work);
    assert!(!config.user_allocated_ring_memory);
}

#[test]
fn test_new_with_probing_fallback() {
    let detector = FeatureDetector::new_with_probing(RELEASE, None).unwrap();

    assert!(detector.kernel_version.major > 0);

    let available = detector.available_features();
    assert!(!available.is_empty());
}

#[test]
fn test_feature_detection_consistency() {
    let kernels = vec![
        KernelVersion {
            major: 6,
            minor: 0,
            patch: 0,
        },
        KernelVersion {
            major: 6,
            minor: 1,
            patch: 0,
        },
        KernelVersion {
            major: 6,
            minor: 6,
            patch: 0,
        },
        KernelVersion {
            major: 6,
            minor: 12,
            patch: 0,
        },
    ];

    let mut previous_feature_count = 0;

    for kernel in kernels {
        let features = FeatureDetector::probe_features(&kernel);
        let detector = FeatureDetector {
            kernel_version: kernel.clone(),
            features,
        };
        let available = detector.available_features();

        assert!(
            available.len() >= previous_feature_count,
            "Kernel {}.{}.{} has fewer features than previous kernel",
            kernel.major,
            kernel.minor,
            kernel.patch
        );

        previous_feature_count = available.len();
    }
}

#[test]
fn kernel_version_parse_errors() {
    assert_eq!(
        FeatureDetector::parse_kernel_version("6").unwrap_err(),
        "Invalid kernel version format"
    );
    assert_eq!(
        FeatureDetector::parse_kernel_version("x.1.2").unwrap_err(),
        "Invalid major version number"
    );
    assert_eq!(
        FeatureDetector::parse_kernel_version("6.y").unwrap_err(),
        "Invalid minor version number"
    );
    assert_eq!(FeatureDetector::parse_kernel_version("6.5").unwrap(), (6, 5, 0));
    assert_eq!(FeatureDetector::parse_kernel_version("6.5.rc1").unwrap(), (6, 5, 0));
    assert_eq!(FeatureDetector::parse_kernel_version("+6.5.3").unwrap(), (6, 5, 3));
    assert_eq!(
        FeatureDetector::parse_kernel_version("4294967296.1").unwrap_err(),
        "Invalid major version number"
    );
}

#[test]
fn detector_rejects_unparsable_release() {
    match FeatureDetector::new("not-a-version") {
        Err(SaferRingError::Io(e)) => {
            assert_eq!(e.kind, IoErrorKind::InvalidData);
            assert_eq!(
                e.message,
                "Failed to parse kernel version: Invalid kernel version format"
            );
        }
        _ => panic!("expected an I/O error"),
    }
}

#[test]
fn probing_merges_basic_features_only() {
    let probe = DirectProbeDetector::new(vec![13, 22, 23, 27, 47]);
    let probed = probe.probe_kernel_features();
    assert!(probed.fixed_files);
    assert!(probed.multi_shot);
    assert!(probed.send_zc_reporting);
    assert!(probed.sq_poll);
    assert!(!probed.fast_poll);
    assert!(!probed.coop_taskrun);

    let detector = FeatureDetector::new_with_probing("5.0.0", Some(&probe)).unwrap();
    assert!(detector.features.fixed_files);
    assert!(detector.features.multi_shot);
    assert!(!detector.features.send_zc_reporting);
    assert!(detector.has_feature("buffer_selection"));
    assert!(!detector.has_feature("fast_poll"));
}

#[test]
fn optimal_config_of_old_kernel_enables_nothing() {
    let detector = FeatureDetector::new("4.19.0").unwrap();
    assert!(detector.available_features().is_empty());
    let config = detector.create_optimal_config();
    assert_eq!(config.feature_count(), 0);
    assert!(config.validate().is_empty());
}

#[test]
fn has_feature_agrees_with_the_available_list() {
    let detector = FeatureDetector::new("6.8.0-45-generic").unwrap();
    let available = detector.available_features();
    for name in [
        "fixed_files",
        "buffer_selection",
        "multi_shot",
        "sq_poll",
        "defer_async_work",
        "registered_buffer_cloning",
        "no_such_feature",
    ] {
        assert_eq!(detector.has_feature(name), available.contains(&name), "{}", name);
    }
    for name in &available {
        assert!(detector.has_feature(name));
    }
}

#[test]
fn available_features_lists_each_name_once() {
    let detector = FeatureDetector::new("6.12.0").unwrap();
    let names = detector.available_features();
    assert_eq!(names.len(), 29);
    for (i, a) in names.iter().enumerate() {
        for b in names.iter().skip(i + 1) {
            assert_ne!(a, b);
        }
    }
}
