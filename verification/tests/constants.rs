use gfx_runtime::gl::call;
use gfx_runtime::gl::native::TEXTURE_BUFFER;

#[test]
fn constants_are_those_of_the_bindings() {
    assert_eq!(call::NO_ERROR, gfx_gl::NO_ERROR);
    assert_eq!(call::INVALID_ENUM, gfx_gl::INVALID_ENUM);
    assert_eq!(call::INVALID_VALUE, gfx_gl::INVALID_VALUE);
    assert_eq!(call::INVALID_OPERATION, gfx_gl::INVALID_OPERATION);
    assert_eq!(call::INVALID_FRAMEBUFFER_OPERATION, gfx_gl::INVALID_FRAMEBUFFER_OPERATION);
    assert_eq!(call::OUT_OF_MEMORY, gfx_gl::OUT_OF_MEMORY);
    assert_eq!(call::UNPACK_ALIGNMENT, gfx_gl::UNPACK_ALIGNMENT);
    assert_eq!(call::PROGRAM_POINT_SIZE, gfx_gl::PROGRAM_POINT_SIZE);
    assert_eq!(call::ARRAY_BUFFER, gfx_gl::ARRAY_BUFFER);
    assert_eq!(call::ELEMENT_ARRAY_BUFFER, gfx_gl::ELEMENT_ARRAY_BUFFER);
    assert_eq!(call::UNIFORM_BUFFER, gfx_gl::UNIFORM_BUFFER);
    assert_eq!(call::RENDERBUFFER, gfx_gl::RENDERBUFFER);
    assert_eq!(call::FRAMEBUFFER_SRGB, gfx_gl::FRAMEBUFFER_SRGB);
    assert_eq!(call::DRAW_INDIRECT_BUFFER, gfx_gl::DRAW_INDIRECT_BUFFER);
    assert_eq!(call::SYNC_GPU_COMMANDS_COMPLETE, gfx_gl::SYNC_GPU_COMMANDS_COMPLETE);
    assert_eq!(call::CLIENT_MAPPED_BUFFER_BARRIER_BIT, gfx_gl::CLIENT_MAPPED_BUFFER_BARRIER_BIT);
    assert_eq!(call::SYNC_FLUSH_COMMANDS_BIT, gfx_gl::SYNC_FLUSH_COMMANDS_BIT);
    assert_eq!(TEXTURE_BUFFER, gfx_gl::TEXTURE_BUFFER);
}
