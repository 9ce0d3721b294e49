use gfx_runtime::gl::call::{Call, DRAW_INDIRECT_BUFFER, ELEMENT_ARRAY_BUFFER};
use gfx_runtime::gl::command::{
    plan, select_draw, select_indexed, Command, DrawPath, IndexedPath, Instances, Rejection,
};
use gfx_runtime::gl::info::Features;

fn none() -> Features {
    Features {
        draw_instanced: false,
        draw_instanced_base: false,
        draw_indexed_base: false,
        draw_indexed_instanced: false,
        draw_indexed_instanced_base_vertex: false,
        draw_indexed_instanced_base: false,
        srgb_color: false,
    }
}

fn draw(instances: Option<Instances>) -> Command {
    Command::Draw { primitive: 4, start: 2, count: 6, instances }
}

fn indexed(base: i32, instances: Option<Instances>) -> Command {
    Command::DrawIndexed { primitive: 4, index_type: 0x1405, start: 12, count: 6, base, instances }
}

#[test]
fn base_instance_without_the_entry_point_is_turned_down() {
    let f = Features { draw_instanced: true, draw_instanced_base: false, ..none() };
    let out = plan(&f, &draw(Some(Instances { count: 2, base: 5 })));
    assert_eq!(out.calls, vec![]);
    assert_eq!(out.rejected, Some(Rejection::BaseInstance));
    assert_eq!(
        Rejection::BaseInstance.message(),
        "Instanced draw calls with non-zero base instance are not supported"
    );
}

#[test]
fn draws_fall_back_in_order() {
    let full = Features { draw_instanced: true, draw_instanced_base: true, ..none() };
    let some = Features { draw_instanced: true, ..none() };
    let three_from_five = Some(Instances { count: 3, base: 5 });
    let three = Some(Instances { count: 3, base: 0 });

    assert_eq!(
        plan(&full, &draw(three_from_five)).calls,
        vec![Call::DrawArraysInstancedBaseInstance {
            mode: 4,
            first: 2,
            count: 6,
            instances: 3,
            base_instance: 5,
        }]
    );
    assert_eq!(
        plan(&full, &draw(three)).calls,
        vec![Call::DrawArraysInstancedBaseInstance {
            mode: 4,
            first: 2,
            count: 6,
            instances: 3,
            base_instance: 0,
        }]
    );
    assert_eq!(
        plan(&some, &draw(three)).calls,
        vec![Call::DrawArraysInstanced { mode: 4, first: 2, count: 6, instances: 3 }]
    );
    assert_eq!(plan(&none(), &draw(None)).calls, vec![Call::DrawArrays { mode: 4, first: 2, count: 6 }]);
    assert_eq!(plan(&full, &draw(None)).calls, vec![Call::DrawArrays { mode: 4, first: 2, count: 6 }]);

    let out = plan(&none(), &draw(three));
    assert_eq!(out.calls, vec![]);
    assert_eq!(out.rejected, Some(Rejection::Instanced));
    // the base entry point alone is of no use without instancing
    let odd = Features { draw_instanced_base: true, ..none() };
    assert_eq!(plan(&odd, &draw(three_from_five)).rejected, Some(Rejection::Instanced));
}

#[test]
fn the_table_picks_the_most_capable_entry_point() {
    let full = Features { draw_instanced: true, draw_instanced_base: true, ..none() };
    let some = Features { draw_instanced: true, ..none() };
    let three = Some(Instances { count: 3, base: 0 });
    assert_eq!(select_draw(&full, &three), Ok(DrawPath::InstancedBase));
    assert_eq!(select_draw(&some, &three), Ok(DrawPath::Instanced));
    assert_eq!(select_draw(&some, &None), Ok(DrawPath::Plain));
    assert_eq!(select_draw(&none(), &three), Err(Rejection::Instanced));
    let everything = Features {
        draw_indexed_base: true,
        draw_indexed_instanced: true,
        draw_indexed_instanced_base_vertex: true,
        draw_indexed_instanced_base: true,
        ..none()
    };
    assert_eq!(select_indexed(&everything, 7, &three), Ok(IndexedPath::InstancedBaseVertexBaseInstance));
    assert_eq!(select_indexed(&everything, 7, &None), Ok(IndexedPath::BaseVertex));
    assert_eq!(select_indexed(&none(), 0, &None), Ok(IndexedPath::Plain));
}

#[test]
fn indexed_draws_fall_back_in_order() {
    let three_from_five = Some(Instances { count: 3, base: 5 });
    let three = Some(Instances { count: 3, base: 0 });
    let full = Features { draw_indexed_instanced_base: true, ..none() };
    assert_eq!(
        plan(&full, &indexed(7, three_from_five)).calls,
        vec![Call::DrawElementsInstancedBaseVertexBaseInstance {
            mode: 4,
            count: 6,
            index_type: 0x1405,
            offset: 12,
            instances: 3,
            base_vertex: 7,
            base_instance: 5,
        }]
    );
    let base_vertex = Features {
        draw_indexed_instanced_base_vertex: true,
        draw_indexed_instanced: true,
        ..none()
    };
    assert_eq!(
        plan(&base_vertex, &indexed(7, three)).calls,
        vec![Call::DrawElementsInstancedBaseVertex {
            mode: 4,
            count: 6,
            index_type: 0x1405,
            offset: 12,
            instances: 3,
            base_vertex: 7,
        }]
    );
    let out = plan(&base_vertex, &indexed(7, three_from_five));
    assert_eq!(out.calls, vec![]);
    assert_eq!(out.rejected, Some(Rejection::IndexedBaseInstance));

    let instanced = Features { draw_indexed_instanced: true, ..none() };
    assert_eq!(
        plan(&instanced, &indexed(0, three)).calls,
        vec![Call::DrawElementsInstanced {
            mode: 4,
            count: 6,
            index_type: 0x1405,
            offset: 12,
            instances: 3,
        }]
    );
    assert_eq!(plan(&instanced, &indexed(7, three)).rejected, Some(Rejection::IndexedInstancedBaseVertex));
    assert_eq!(plan(&none(), &indexed(0, three)).rejected, Some(Rejection::IndexedInstanced));

    let based = Features { draw_indexed_base: true, ..none() };
    assert_eq!(
        plan(&based, &indexed(7, None)).calls,
        vec![Call::DrawElementsBaseVertex {
            mode: 4,
            count: 6,
            index_type: 0x1405,
            offset: 12,
            base_vertex: 7,
        }]
    );
    assert_eq!(
        plan(&none(), &indexed(0, None)).calls,
        vec![Call::DrawElements { mode: 4, count: 6, index_type: 0x1405, offset: 12 }]
    );
    let out = plan(&none(), &indexed(7, None));
    assert_eq!(out.calls, vec![]);
    assert_eq!(out.rejected, Some(Rejection::IndexedBaseVertex));
}

#[test]
fn every_reason_has_its_words() {
    assert_eq!(Rejection::Instanced.message(), "Instanced draw calls are not supported");
    assert_eq!(
        Rejection::IndexedBaseInstance.message(),
        "Instance bases with instanced indexed drawing is not supported"
    );
    assert_eq!(
        Rejection::IndexedInstancedBaseVertex.message(),
        "Base vertex with instanced indexed drawing is not supported"
    );
    assert_eq!(Rejection::IndexedInstanced.message(), "Instanced indexed drawing is not supported");
    assert_eq!(Rejection::IndexedBaseVertex.message(), "Base vertex with indexed drawing not supported");
}

#[test]
fn other_commands_are_one_or_two_calls() {
    let f = none();
    assert_eq!(
        plan(&f, &Command::BindIndexBuffer(8)).calls,
        vec![Call::BindBuffer { target: ELEMENT_ARRAY_BUFFER, buffer: 8 }]
    );
    assert_eq!(plan(&f, &Command::Dispatch(1, 2, 3)).calls, vec![Call::DispatchCompute { x: 1, y: 2, z: 3 }]);
    assert_eq!(
        plan(&f, &Command::DispatchIndirect(8, 256)).calls,
        vec![
            Call::BindBuffer { target: DRAW_INDIRECT_BUFFER, buffer: 8 },
            Call::DispatchComputeIndirect { offset: 256 },
        ]
    );
}
