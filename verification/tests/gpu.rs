use ffgpu::context::layout::{
    av_pixel_texture_format, create_frame_textures, Depth, FrameDescriptor, PixelFormat,
    PlaneDescriptor, PlaneLayout, TextureFormat, TextureSpec,
};
use ffgpu::context::pipeline_cache::{
    can_draw, drawn_color_space, is_supported, shader_source, yuv_to_rgb_matrix, MatrixEntry,
    PipelineCache, PipelineSpec, Shader, BT2020CL, BT470BG, BT709, FCC, UNSPECIFIED,
};
use ffgpu::decode::frames::{AdapterStep, FrameDecoder};
use ffgpu::decode::hw::d3d11va::{
    create_shared_texture, get_dxgi_layout, get_dxgi_yuv_format, D3D11VAFrameAdapter, YuvFormat,
    DXGI_FORMAT_NV12, DXGI_FORMAT_P010,
};
use ffgpu::decode::hw::software::{pick_transfer_format, PlaneUpload, SoftwareFrameAdapter};
use ffgpu::decode::hw::vaapi::{
    find_memory_type, DrmFrame, DrmLayer, DrmObject, DrmPlane, PlaneImport, VAAPIFrameAdapter,
    VulkanDRMTexture, DRM_FORMAT_GR88, DRM_FORMAT_R8,
};
use ffgpu::decode::hw::{AdapterKind, Backend, Platform};
use ffgpu::decode::vaapi::{import_objects, planar_copy, ImportedTexture, VAAPIHardwareDecoder};
use ffgpu::decode::video_toolbox::{BufferPlane, PixelBuffer, VideoToolboxHardwareDecoder};
use ffgpu::error::Error;
use ffgpu::required_wgpu_device_features;

const BACKENDS: [Backend; 5] = [
    Backend::Vulkan,
    Backend::Dx12,
    Backend::Metal,
    Backend::Gl,
    Backend::Other,
];

fn packed() -> FrameDescriptor<()> {
    FrameDescriptor {
        planes: PlaneLayout::PackedYUV420([(), ()]),
        depth: Depth::D8,
    }
}

fn planar(depth: Depth) -> FrameDescriptor<()> {
    FrameDescriptor {
        planes: PlaneLayout::YUV420([(), (), ()]),
        depth,
    }
}

#[test]
fn planes_are_mapped_in_order_with_their_descriptors() {
    let planes = PlaneLayout::PackedYUV420([10, 20]);
    let mapped = planes.map(|plane, descriptor: PlaneDescriptor| {
        (
            *plane,
            descriptor.width_div,
            descriptor.height_div,
            descriptor.channels,
        )
    });
    assert_eq!(
        mapped,
        PlaneLayout::PackedYUV420([(10, 1, 1, 1), (20, 2, 2, 2)])
    );
    let planes = PlaneLayout::YUV420([1, 2, 3]);
    let mapped = planes.map(|plane, descriptor: PlaneDescriptor| (*plane, descriptor.channels));
    assert_eq!(mapped, PlaneLayout::YUV420([(1, 1), (2, 1), (3, 1)]));
    assert_eq!(planes.as_identity(), PlaneLayout::YUV420([(), (), ()]));
}

#[test]
fn pixel_formats_have_textures() {
    let nv12 = av_pixel_texture_format(PixelFormat::Nv12).unwrap();
    assert_eq!(
        nv12.planes,
        PlaneLayout::PackedYUV420([TextureFormat::R8Unorm, TextureFormat::Rg8Unorm])
    );
    assert_eq!(nv12.as_identity(), packed());
    let p010 = av_pixel_texture_format(PixelFormat::P010le).unwrap();
    assert_eq!(
        p010.planes,
        PlaneLayout::PackedYUV420([TextureFormat::R16Unorm, TextureFormat::Rg16Unorm])
    );
    for format in [
        PixelFormat::Absent,
        PixelFormat::Vaapi,
        PixelFormat::D3d11,
        PixelFormat::VideoToolbox,
        PixelFormat::DrmPrime,
        PixelFormat::Other(77),
    ] {
        assert_eq!(av_pixel_texture_format(format), None);
    }
}

#[test]
fn chroma_textures_have_half_the_size() {
    let formats = av_pixel_texture_format(PixelFormat::Yuv420p).unwrap();
    assert_eq!(
        create_frame_textures(&formats.planes, 641, 360),
        PlaneLayout::YUV420([
            TextureSpec {
                width: 641,
                height: 360,
                format: TextureFormat::R8Unorm
            },
            TextureSpec {
                width: 320,
                height: 180,
                format: TextureFormat::R8Unorm
            },
            TextureSpec {
                width: 320,
                height: 180,
                format: TextureFormat::R8Unorm
            },
        ])
    );
}

#[test]
fn color_spaces_with_a_conversion() {
    for color_space in [BT709, FCC, BT470BG, BT2020CL] {
        assert!(is_supported(color_space));
        assert_eq!(drawn_color_space(color_space), color_space);
    }
    assert!(!is_supported(UNSPECIFIED));
    assert!(!is_supported(0));
    assert_eq!(drawn_color_space(UNSPECIFIED), BT709);
}

#[test]
fn conversion_matrix_of_bt709() {
    let matrix = yuv_to_rgb_matrix(BT709, &[117489, 138438, 13975, 34925]);
    assert_eq!(
        matrix,
        [
            MatrixEntry::One,
            MatrixEntry::Zero,
            MatrixEntry::Scaled(117489),
            MatrixEntry::One,
            MatrixEntry::Negated(13975),
            MatrixEntry::Negated(34925),
            MatrixEntry::One,
            MatrixEntry::Scaled(138438),
            MatrixEntry::Zero,
        ]
    );
}

#[test]
fn shaders_get_their_matrix_and_scale() {
    assert_eq!(
        shader_source("m($color_matrix) * $scale; $scale", "1,0", Depth::D10),
        "m(1,0) * 64; 64"
    );
    assert_eq!(shader_source("$scale", "", Depth::D12), "16");
    assert_eq!(shader_source("$scale$color_matrix", "x", Depth::D8), "1x");
    assert_eq!(shader_source("nothing", "x", Depth::D16), "nothing");
}

#[test]
fn pipelines_are_built_once() {
    let mut cache = PipelineCache::new();
    let first = cache.get(&packed(), UNSPECIFIED);
    assert_eq!(first.index, 0);
    assert_eq!(
        first.build,
        Some(PipelineSpec {
            bindings: 2,
            shader: Shader::PackedYuv420,
            color_space: BT709,
            depth: Depth::D8
        })
    );
    let again = cache.get(&packed(), BT709);
    assert_eq!(again.index, 0);
    assert_eq!(again.build, None);
    let other = cache.get(&packed(), BT2020CL);
    assert_eq!(other.index, 1);
    assert!(other.build.is_some());
    let planes = cache.get(&planar(Depth::D12), BT709);
    assert_eq!(planes.index, 2);
    assert_eq!(
        planes.build,
        Some(PipelineSpec {
            bindings: 3,
            shader: Shader::Yuv420,
            color_space: BT709,
            depth: Depth::D12
        })
    );
    assert_eq!(cache.get(&planar(Depth::D8), BT709).index, 3);
    let (bound, bindings) = cache.bind_frame_textures(
        &FrameDescriptor {
            planes: PlaneLayout::YUV420(["y", "u", "v"]),
            depth: Depth::D12,
        },
        UNSPECIFIED,
    );
    assert_eq!(bound.index, 2);
    assert_eq!(bound.build, None);
    assert_eq!(bindings, 3);
}

#[test]
fn layouts_that_can_be_drawn() {
    assert!(can_draw(&packed().planes));
    assert!(can_draw(&planar(Depth::D8).planes));
    assert!(!can_draw(
        &av_pixel_texture_format(PixelFormat::Yuv444p).unwrap().planes
    ));
}

#[test]
fn adapters_for_formats() {
    assert_eq!(
        AdapterKind::for_format(Platform::Windows, PixelFormat::D3d11),
        Ok(AdapterKind::D3D11VA)
    );
    assert_eq!(
        AdapterKind::for_format(Platform::MacOs, PixelFormat::VideoToolbox),
        Ok(AdapterKind::VideoToolbox)
    );
    assert_eq!(
        AdapterKind::for_format(Platform::Linux, PixelFormat::Vaapi),
        Ok(AdapterKind::VaApi)
    );
    assert_eq!(
        AdapterKind::for_format(Platform::Linux, PixelFormat::D3d11),
        Err(Error::UnsupportedPixelFormat)
    );
    assert_eq!(
        AdapterKind::for_format(Platform::Linux, PixelFormat::Nv12),
        Ok(AdapterKind::Software)
    );
}

#[test]
fn supported_platforms() {
    for backend in BACKENDS {
        assert_eq!(
            AdapterKind::D3D11VA.supports_backend(backend),
            backend == Backend::Vulkan || backend == Backend::Dx12
        );
        assert_eq!(
            AdapterKind::VideoToolbox.supports_backend(backend),
            backend == Backend::Metal
        );
        assert_eq!(
            AdapterKind::VaApi.supports_backend(backend),
            backend == Backend::Vulkan
        );
        assert!(!AdapterKind::Software.supports_backend(backend));
    }
    assert_eq!(AdapterKind::D3D11VA.name(), "D3D11VA zero-copy");
    assert_eq!(AdapterKind::VaApi.name(), "VA-API Vulkan DMA");
    assert_eq!(AdapterKind::Software.name(), "Software");
}

#[test]
fn frame_decoder_keeps_its_adapter_while_the_format_stays() {
    let mut decoder = FrameDecoder::new();
    assert_eq!(decoder.name(), None);
    assert_eq!(decoder.copy_to_rgb(true, Some(packed())), None);
    assert_eq!(
        decoder.begin_frame(Platform::Linux, PixelFormat::Vaapi),
        Ok(AdapterStep {
            kind: AdapterKind::VaApi,
            make: true
        })
    );
    decoder.adapter_made(AdapterKind::VaApi);
    assert_eq!(
        decoder.begin_frame(Platform::Linux, PixelFormat::Vaapi),
        Ok(AdapterStep {
            kind: AdapterKind::VaApi,
            make: false
        })
    );
    assert_eq!(decoder.frame_imported(Ok(())), Ok(true));
    assert_eq!(decoder.name(), Some("VA-API Vulkan DMA"));
    assert_eq!(decoder.copy_to_rgb(true, Some(packed())), Some(packed()));
    assert_eq!(decoder.copy_to_rgb(false, Some(packed())), None);
    assert_eq!(
        decoder.begin_frame(Platform::Linux, PixelFormat::Yuv420p),
        Ok(AdapterStep {
            kind: AdapterKind::Software,
            make: true
        })
    );
    assert_eq!(
        decoder.begin_frame(Platform::Linux, PixelFormat::Other(5)),
        Err(Error::UnsupportedPixelFormat)
    );
    assert_eq!(decoder.adapter, None);
}

#[test]
fn unsupported_backends_are_replaced_by_copies() {
    let mut decoder = FrameDecoder::new();
    decoder
        .begin_frame(Platform::Windows, PixelFormat::D3d11)
        .unwrap();
    decoder.adapter_made(AdapterKind::D3D11VA);
    assert_eq!(
        decoder.frame_imported(Err(Error::UnsupportedBackend)),
        Ok(false)
    );
    assert_eq!(
        decoder.begin_frame(Platform::Windows, PixelFormat::D3d11),
        Ok(AdapterStep {
            kind: AdapterKind::Software,
            make: false
        })
    );
    assert_eq!(
        decoder.frame_imported(Err(Error::InvalidFrame)),
        Err(Error::InvalidFrame)
    );
    assert_eq!(decoder.adapter, Some(AdapterKind::Software));
}

#[test]
fn software_frames_are_copied_plane_by_plane() {
    let mut adapter = SoftwareFrameAdapter::new();
    assert!(SoftwareFrameAdapter::supports_format(PixelFormat::Nv12));
    assert!(!SoftwareFrameAdapter::supports_format(PixelFormat::Vaapi));
    assert_eq!(adapter.layout_identity(), None);
    assert_eq!(
        adapter.prepare(PixelFormat::Nv12, false, &vec![], 640, 360),
        Ok(true)
    );
    assert_eq!(
        adapter.prepare(PixelFormat::Nv12, false, &vec![], 640, 360),
        Ok(false)
    );
    assert_eq!(adapter.layout_identity(), Some(packed()));
    assert_eq!(
        adapter.import_frame(&[704, 704, 0], 640, 360),
        vec![
            PlaneUpload {
                data_len: 253440,
                bytes_per_row: 704,
                width: 640,
                height: 360
            },
            PlaneUpload {
                data_len: 126720,
                bytes_per_row: 704,
                width: 320,
                height: 180
            },
        ]
    );
}

#[test]
fn software_frames_with_three_planes() {
    let mut adapter = SoftwareFrameAdapter::new();
    adapter
        .prepare(PixelFormat::Yuv420p, false, &vec![], 5, 3)
        .unwrap();
    let uploads = adapter.import_frame(&[8, 4, 6], 5, 3);
    assert_eq!(uploads.len(), 3);
    assert_eq!(uploads[0].data_len, 24);
    assert_eq!(uploads[1].data_len, 6);
    assert_eq!(
        uploads[2],
        PlaneUpload {
            data_len: 9,
            bytes_per_row: 6,
            width: 2,
            height: 1
        }
    );
}

#[test]
fn smaller_software_frames_are_copied_to_the_same_textures() {
    let mut adapter = SoftwareFrameAdapter::new();
    assert_eq!(
        adapter.prepare(PixelFormat::Nv12, false, &vec![], 64, 64),
        Ok(true)
    );
    assert_eq!(
        adapter.prepare(PixelFormat::Nv12, false, &vec![], 32, 32),
        Ok(false)
    );
    let uploads = adapter.import_frame(&[40, 48, 0], 32, 32);
    assert_eq!(
        uploads,
        vec![
            PlaneUpload {
                data_len: 1280,
                bytes_per_row: 40,
                width: 32,
                height: 32
            },
            PlaneUpload {
                data_len: 768,
                bytes_per_row: 48,
                width: 16,
                height: 16
            },
        ]
    );
    assert_eq!(adapter.layout_identity(), Some(packed()));
    match adapter.texture.unwrap().textures {
        PlaneLayout::PackedYUV420([luma, _]) => assert_eq!((luma.width, luma.height), (64, 64)),
        _ => panic!("two planes"),
    }
}

#[test]
fn smaller_dma_frames_are_copied_to_the_same_textures() {
    let texture = VulkanDRMTexture::new(64, 64);
    let imports = texture.import_frame(&drm_frame(), 32, 32).unwrap();
    assert_eq!((imports[0].width, imports[0].height), (32, 32));
    assert_eq!(imports[0].buffer_size, 1024);
    assert_eq!((imports[1].width, imports[1].height), (16, 16));
    assert_eq!(imports[1].buffer_size, 768);
}

#[test]
fn coefficients_of_any_size_have_a_matrix() {
    let matrix = yuv_to_rgb_matrix(FCC, &[i32::MIN; 4]);
    assert_eq!(matrix[2], MatrixEntry::Scaled(i32::MIN));
    assert_eq!(matrix[4], MatrixEntry::Negated(i32::MIN));
    assert_eq!(matrix[5], MatrixEntry::Negated(i32::MIN));
}

#[test]
fn hardware_frames_are_transferred_in_a_format_that_can_be_shown() {
    let formats = vec![
        PixelFormat::Other(3),
        PixelFormat::P010le,
        PixelFormat::Nv12,
        PixelFormat::Absent,
    ];
    assert_eq!(pick_transfer_format(&formats), PixelFormat::P010le);
    let none = vec![
        PixelFormat::Other(3),
        PixelFormat::Absent,
        PixelFormat::Nv12,
    ];
    assert_eq!(pick_transfer_format(&none), PixelFormat::Absent);
    assert_eq!(pick_transfer_format(&vec![]), PixelFormat::Absent);
    let mut adapter = SoftwareFrameAdapter::new();
    assert_eq!(
        adapter.prepare(PixelFormat::Vaapi, true, &none, 8, 8),
        Err(Error::UnsupportedPixelFormat)
    );
    assert!(adapter.texture.is_none());
    assert_eq!(
        adapter.prepare(PixelFormat::Vaapi, true, &formats, 8, 8),
        Ok(true)
    );
    assert_eq!(
        adapter.texture.unwrap().pixel_format,
        PixelFormat::P010le
    );
    assert!(!SoftwareFrameAdapter::needs_transfer(0));
    assert!(SoftwareFrameAdapter::needs_transfer(-38));
    assert_eq!(SoftwareFrameAdapter::transferred(0), Ok(()));
    assert_eq!(
        SoftwareFrameAdapter::transferred(-38),
        Err(Error::UnsupportedPixelFormat)
    );
}

fn drm_frame() -> DrmFrame {
    DrmFrame {
        objects: vec![
            DrmObject {
                fd: 40,
                size: 1000,
            },
            DrmObject {
                fd: 41,
                size: 2000,
            },
        ],
        layers: vec![
            DrmLayer {
                format: DRM_FORMAT_R8,
                plane: DrmPlane {
                    object_index: 1,
                    offset: 64,
                    pitch: 32,
                },
            },
            DrmLayer {
                format: DRM_FORMAT_GR88,
                plane: DrmPlane {
                    object_index: 0,
                    offset: 128,
                    pitch: 48,
                },
            },
        ],
    }
}

#[test]
fn dma_buffers_are_imported_by_plane() {
    let texture = VulkanDRMTexture::new(20, 11);
    let imports = texture.import_frame(&drm_frame(), 20, 11).unwrap();
    assert_eq!(
        imports[0],
        PlaneImport {
            fd: 41,
            buffer_size: 352,
            memory_offset: 64,
            object_size: 2000,
            bytes_per_row: 32,
            width: 20,
            height: 11
        }
    );
    assert_eq!(
        imports[1],
        PlaneImport {
            fd: 40,
            buffer_size: 264,
            memory_offset: 128,
            object_size: 1000,
            bytes_per_row: 48,
            width: 10,
            height: 5
        }
    );
    assert!(VulkanDRMTexture::is_mapped(0));
    assert!(!VulkanDRMTexture::is_mapped(-38));
    assert!(drm_frame().is_luma_and_chroma());
    let mut other = drm_frame();
    other.layers[0].format = DRM_FORMAT_GR88;
    assert!(!other.is_luma_and_chroma());
    assert!(texture.import_frame(&other, 20, 11).is_none());
    let mut short = drm_frame();
    short.layers.pop();
    assert!(texture.import_frame(&short, 20, 11).is_none());
}

#[test]
fn whole_objects_are_imported() {
    let imports = import_objects(&drm_frame(), 20, 11).unwrap();
    assert_eq!(imports[0].buffer_size, 2000);
    assert_eq!(imports[0].memory_offset, 0);
    assert_eq!(imports[1].fd, 40);
    assert_eq!(imports[1].bytes_per_row, 48);
    assert_eq!(imports[1].height, 5);
}

#[test]
fn memory_is_local_to_the_device_where_there_is_some() {
    assert_eq!(find_memory_type(&vec![6, 14, 7, 1]), 2);
    assert_eq!(find_memory_type(&vec![1]), 0);
    assert_eq!(find_memory_type(&vec![6, 14]), 0);
    assert_eq!(find_memory_type(&vec![]), 0);
}

#[test]
fn vaapi_adapter_wants_vulkan() {
    assert!(VAAPIFrameAdapter::supports_format(PixelFormat::Vaapi));
    assert!(!VAAPIFrameAdapter::supports_format(PixelFormat::Nv12));
    let mut adapter = VAAPIFrameAdapter::new();
    assert_eq!(
        adapter.prepare(PixelFormat::Nv12, Backend::Vulkan, 8, 6),
        Err(Error::UnsupportedPixelFormat)
    );
    assert_eq!(
        adapter.prepare(PixelFormat::Vaapi, Backend::Gl, 8, 6),
        Err(Error::UnsupportedBackend)
    );
    assert_eq!(adapter.layout_identity(), None);
    assert_eq!(
        adapter.prepare(PixelFormat::Vaapi, Backend::Vulkan, 8, 6),
        Ok(true)
    );
    assert_eq!(
        adapter.prepare(PixelFormat::Vaapi, Backend::Vulkan, 8, 6),
        Ok(false)
    );
    assert_eq!(adapter.layout_identity(), Some(packed()));
    assert_eq!(
        adapter.imported.unwrap().textures,
        PlaneLayout::PackedYUV420([
            TextureSpec {
                width: 8,
                height: 6,
                format: TextureFormat::R8Unorm
            },
            TextureSpec {
                width: 4,
                height: 3,
                format: TextureFormat::Rg8Unorm
            },
        ])
    );
}

#[test]
fn vaapi_decoder_falls_back_to_copies() {
    let mut decoder = VAAPIHardwareDecoder::new();
    let step = decoder.import_frame(PixelFormat::Vaapi, Backend::Vulkan);
    assert_eq!(step.imported, ImportedTexture::VulkanDRM);
    assert!(step.make);
    assert!(decoder.frame_imported(true));
    assert!(!decoder.import_frame(PixelFormat::Vaapi, Backend::Vulkan).make);
    assert!(!decoder.frame_imported(false));
    let step = decoder.import_frame(PixelFormat::Vaapi, Backend::Vulkan);
    assert_eq!(step.imported, ImportedTexture::PlanarCopy);
    assert!(decoder.frame_imported(true));
    let mut decoder = VAAPIHardwareDecoder::new();
    let step = decoder.import_frame(PixelFormat::Vaapi, Backend::Gl);
    assert_eq!(step.imported, ImportedTexture::PlanarCopy);
    let (luma, chroma) = ImportedTexture::textures(8, 6);
    assert_eq!((luma.width, luma.height), (8, 6));
    assert_eq!(luma.format, TextureFormat::R8Unorm);
    assert_eq!((chroma.width, chroma.height), (8, 6));
    assert_eq!(chroma.format, TextureFormat::Rg8Unorm);
}

#[test]
fn planar_copies_split_a_frame() {
    let copy = planar_copy(6, 4);
    assert_eq!(copy.data_len, 36);
    assert_eq!(copy.luma.data_len, 24);
    assert_eq!(copy.chroma.data_len, 12);
    assert_eq!(copy.chroma.width, 3);
    assert_eq!(copy.chroma.bytes_per_row, 6);
    // an odd number of pixels
    let copy = planar_copy(3, 3);
    assert_eq!(copy.data_len, 13);
    assert_eq!(copy.chroma.data_len, 4);
}

fn pixel_buffer() -> PixelBuffer {
    PixelBuffer {
        luma: BufferPlane {
            width: 64,
            height: 32,
            bytes_per_row: 80,
        },
        chroma: BufferPlane {
            width: 32,
            height: 16,
            bytes_per_row: 96,
        },
    }
}

#[test]
fn video_toolbox_shares_with_metal_and_copies_otherwise() {
    let mut decoder = VideoToolboxHardwareDecoder::new();
    let buffer = pixel_buffer();
    assert_eq!(
        decoder.import_frame(None, PixelFormat::Absent, Backend::Metal),
        None
    );
    let (texture, make) = decoder
        .import_frame(Some(buffer), PixelFormat::VideoToolbox, Backend::Metal)
        .unwrap();
    assert!(texture.shared && make);
    let (_, make) = decoder
        .import_frame(Some(buffer), PixelFormat::VideoToolbox, Backend::Metal)
        .unwrap();
    assert!(!make);
    let (luma, chroma) = texture.import_cv_buffer(&buffer);
    assert_eq!((luma.width, luma.height), (64, 32));
    assert_eq!(luma.source.format, TextureFormat::R8Unorm);
    assert_eq!((chroma.width, chroma.height), (32, 16));
    assert_eq!(chroma.source.format, TextureFormat::Rg8Unorm);
    let mut decoder = VideoToolboxHardwareDecoder::new();
    let (texture, _) = decoder
        .import_frame(Some(buffer), PixelFormat::VideoToolbox, Backend::Gl)
        .unwrap();
    assert!(!texture.shared);
    let (luma, chroma) = texture.copy_cv_buffer(&buffer);
    assert_eq!(luma.data_len, 2560);
    assert_eq!(luma.rows_per_image, 32);
    assert_eq!(chroma.data_len, 1536);
    assert_eq!(chroma.bytes_per_row, 96);
}

#[test]
fn dxgi_formats() {
    assert_eq!(get_dxgi_yuv_format(DXGI_FORMAT_NV12), Some(YuvFormat::NV12));
    assert_eq!(get_dxgi_yuv_format(DXGI_FORMAT_P010), Some(YuvFormat::P010));
    assert_eq!(get_dxgi_yuv_format(87), None);
    let p010 = get_dxgi_layout(DXGI_FORMAT_P010).unwrap();
    assert_eq!(p010.depth, Depth::D16);
    assert_eq!(
        p010.planes,
        PlaneLayout::PackedYUV420([TextureFormat::R16Unorm, TextureFormat::Rg16Unorm])
    );
    assert_eq!(get_dxgi_layout(87), None);
}

#[test]
fn d3d11_frames_are_checked_and_shared() {
    assert_eq!(
        D3D11VAFrameAdapter::check_frame(false, PixelFormat::Nv12),
        Err(Error::InvalidFrame)
    );
    assert_eq!(
        D3D11VAFrameAdapter::check_frame(true, PixelFormat::Nv12),
        Err(Error::UnsupportedPixelFormat)
    );
    assert_eq!(
        D3D11VAFrameAdapter::check_frame(true, PixelFormat::D3d11),
        Ok(())
    );
    assert!(D3D11VAFrameAdapter::supports_format(PixelFormat::D3d11));
    let mut adapter = D3D11VAFrameAdapter::new();
    assert_eq!(
        adapter
            .prepare(Backend::Gl, 8, 6, DXGI_FORMAT_NV12)
            .err(),
        Some(Error::UnsupportedBackend)
    );
    assert_eq!(
        adapter.prepare(Backend::Dx12, 8, 6, 87).err(),
        Some(Error::UnsupportedPixelFormat)
    );
    let plan = adapter
        .prepare(Backend::Dx12, 8, 6, DXGI_FORMAT_NV12)
        .ok()
        .unwrap()
        .unwrap();
    assert_eq!(plan.format, YuvFormat::NV12);
    assert_eq!(plan.texture, create_shared_texture(8, 6, DXGI_FORMAT_NV12));
    assert_eq!(plan.texture.misc_flags, 0x900);
    assert_eq!(plan.texture.bind_flags, 8);
    adapter.texture_made(&plan);
    assert_eq!(adapter.layout_identity(), Some(packed()));
    assert!(adapter
        .prepare(Backend::Gl, 8, 6, 87)
        .ok()
        .unwrap()
        .is_none());
    assert_eq!(D3D11VAFrameAdapter::shared(true), Ok(()));
    assert_eq!(
        D3D11VAFrameAdapter::shared(false),
        Err(Error::TextureShare)
    );
    assert_eq!(D3D11VAFrameAdapter::synchronized(true), Ok(()));
    assert_eq!(
        D3D11VAFrameAdapter::synchronized(false),
        Err(Error::Unknown)
    );
}

#[test]
fn features_are_asked_for_on_windows() {
    let vulkan = required_wgpu_device_features(Platform::Windows, Backend::Vulkan);
    assert!(vulkan.texture_format_nv12 && vulkan.texture_format_p010);
    assert!(vulkan.texture_format_16bit_norm && vulkan.vulkan_external_memory_win32);
    let dx12 = required_wgpu_device_features(Platform::Windows, Backend::Dx12);
    assert!(dx12.texture_format_nv12 && !dx12.vulkan_external_memory_win32);
    let gl = required_wgpu_device_features(Platform::Windows, Backend::Gl);
    assert!(!gl.texture_format_nv12);
    let linux = required_wgpu_device_features(Platform::Linux, Backend::Vulkan);
    assert!(!linux.texture_format_nv12 && !linux.vulkan_external_memory_win32);
}
