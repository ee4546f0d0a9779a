//! The snapshot of a host and how it is built from the raw facts of a probe.

use vstd::prelude::*;
use vstd::string::*;
use crate::formato::{bytes_a_formato_humano, formato_humano};

verus! {

/// Operating system identity as the probe reports it; any part may be absent.
#[derive(Debug)]
pub struct SistemaSonda {
    pub nombre: Option<String>,
    pub version: Option<String>,
    pub version_kernel: Option<String>,
}

/// One logical processor as the probe reports it.
#[derive(Debug)]
pub struct ProcesadorSonda {
    pub nombre: String,
    pub marca: String,
    pub frecuencia: u64,
}

/// Memory and swap, in bytes.
#[derive(Clone, Copy, Debug)]
pub struct MemoriaSonda {
    pub total: u64,
    pub usada: u64,
    pub swap_total: u64,
    pub swap_usada: u64,
}

/// One disk as the probe reports it, sizes in bytes.
#[derive(Debug)]
pub struct DiscoSonda {
    pub tipo: String,
    pub nombre: String,
    pub sistema: String,
    pub punto_montado: String,
    pub capacidad: u64,
    pub espacio: u64,
    pub extraible: bool,
}

/// One thermal sensor as the probe reports it. The readings are numerals in
/// degrees Celsius; the critical reading is absent where the sensor has none.
#[derive(Debug)]
pub struct ComponenteSonda {
    pub etiqueta: String,
    pub temperatura: String,
    pub temperatura_maxima: String,
    pub temperatura_critica: Option<String>,
}

/// One network interface as the probe reports it, counters in bytes.
#[derive(Debug)]
pub struct RedSonda {
    pub nombre: String,
    pub recibido: u64,
    pub transmitido: u64,
}

/// One process as the probe reports it, resident memory in bytes.
#[derive(Debug)]
pub struct ProcesoSonda {
    pub pid: String,
    pub nombre: String,
    pub status: String,
    pub memoria: u64,
}

/// Everything one call of the probe reports.
#[derive(Debug)]
pub struct DatosSonda {
    pub sistema: SistemaSonda,
    pub procesadores: Vec<ProcesadorSonda>,
    pub memoria: MemoriaSonda,
    pub discos: Vec<DiscoSonda>,
    pub componentes: Vec<ComponenteSonda>,
    pub redes: Vec<RedSonda>,
    pub procesos: Vec<ProcesoSonda>,
}

/// Operating system identity of a snapshot.
#[derive(Debug)]
pub struct SistemaOperativo {
    pub nombre: String,
    pub version: String,
    pub version_kernel: String,
}

/// One logical processor of a snapshot; the frequency is in MHz.
#[derive(Debug)]
pub struct Procesador {
    pub nombre: String,
    pub marca: String,
    pub frecuencia: u64,
}

/// Memory and swap of a snapshot, as rendered sizes.
#[derive(Debug)]
pub struct Memoria {
    pub memoria_total: String,
    pub memoria_usada: String,
    pub memoria_swap_total: String,
    pub memoria_swap_usada: String,
}

/// One disk of a snapshot.
#[derive(Debug)]
pub struct Disco {
    pub tipo: String,
    pub nombre: String,
    pub sistema: String,
    pub punto_montado: String,
    pub capacidad: String,
    pub espacio: String,
    pub extraible: bool,
}

/// One thermal sensor of a snapshot.
#[derive(Debug)]
pub struct Componente {
    pub etiqueta: String,
    pub temperatura: String,
    pub temperatura_maxima: String,
    pub temperatura_critica: String,
}

/// One network interface of a snapshot.
#[derive(Debug)]
pub struct Red {
    pub nombre: String,
    pub recibido: String,
    pub transmitido: String,
}

/// One process of a snapshot. The raw byte count by which processes are
/// ordered is not kept.
#[derive(Debug)]
pub struct Proceso {
    pub pid: String,
    pub nombre: String,
    pub status: String,
    pub memoria: String,
}

/// One complete sample of the host.
#[derive(Debug)]
pub struct InfoEquipo {
    pub sistema_operativo: SistemaOperativo,
    pub procesadores: Vec<Procesador>,
    pub memoria: Memoria,
    pub discos: Vec<Disco>,
    pub componentes: Vec<Componente>,
    pub redes: Vec<Red>,
    pub procesos: Vec<Proceso>,
}

/// Stands for a fact that the probe did not report: an operating system
/// name or version, a kernel version, a critical temperature.
pub open spec fn desconocido() -> Seq<char> {
    "unknown"@
}

/// The unit that follows a temperature.
pub open spec fn grados() -> Seq<char> {
    " °C"@
}

/// What introduces the report of a snapshot that could not be encoded.
pub open spec fn prefijo_error_serializacion() -> Seq<char> {
    "no se ha podido serializar el json por un error: "@
}

/// The text of an optional fact: the fact itself, or the sentinel in its place.
pub open spec fn texto_o(valor: Option<String>, centinela: Seq<char>) -> Seq<char> {
    match valor {
        Some(s) => s@,
        None => centinela,
    }
}

/// The identity in a snapshot is the reported one, with a sentinel for each
/// absent part.
pub open spec fn es_sistema_de(so: SistemaOperativo, s: SistemaSonda) -> bool {
    &&& so.nombre@ == texto_o(s.nombre, desconocido())
    &&& so.version@ == texto_o(s.version, desconocido())
    &&& so.version_kernel@ == texto_o(s.version_kernel, desconocido())
}

/// The processor in a snapshot is the reported one.
pub open spec fn es_procesador_de(p: Procesador, s: ProcesadorSonda) -> bool {
    &&& p.nombre@ == s.nombre@
    &&& p.marca@ == s.marca@
    &&& p.frecuencia == s.frecuencia
}

/// The memory in a snapshot is the reported one, each count rendered.
pub open spec fn es_memoria_de(m: Memoria, s: MemoriaSonda) -> bool {
    &&& m.memoria_total@ == formato_humano(s.total as nat)
    &&& m.memoria_usada@ == formato_humano(s.usada as nat)
    &&& m.memoria_swap_total@ == formato_humano(s.swap_total as nat)
    &&& m.memoria_swap_usada@ == formato_humano(s.swap_usada as nat)
}

/// The disk in a snapshot is the reported one, each size rendered.
pub open spec fn es_disco_de(d: Disco, s: DiscoSonda) -> bool {
    &&& d.tipo@ == s.tipo@
    &&& d.nombre@ == s.nombre@
    &&& d.sistema@ == s.sistema@
    &&& d.punto_montado@ == s.punto_montado@
    &&& d.capacidad@ == formato_humano(s.capacidad as nat)
    &&& d.espacio@ == formato_humano(s.espacio as nat)
    &&& d.extraible == s.extraible
}

/// The sensor in a snapshot is the reported one, each reading followed by
/// its unit, with a sentinel for an absent critical reading.
pub open spec fn es_componente_de(c: Componente, s: ComponenteSonda) -> bool {
    &&& c.etiqueta@ == s.etiqueta@
    &&& c.temperatura@ == s.temperatura@ + grados()
    &&& c.temperatura_maxima@ == s.temperatura_maxima@ + grados()
    &&& c.temperatura_critica@ == match s.temperatura_critica {
        Some(t) => t@ + grados(),
        None => desconocido(),
    }
}

/// The interface in a snapshot is the reported one, each counter rendered.
pub open spec fn es_red_de(r: Red, s: RedSonda) -> bool {
    &&& r.nombre@ == s.nombre@
    &&& r.recibido@ == formato_humano(s.recibido as nat)
    &&& r.transmitido@ == formato_humano(s.transmitido as nat)
}

/// The process in a snapshot is the reported one, its memory rendered.
pub open spec fn es_proceso_de(p: Proceso, s: ProcesoSonda) -> bool {
    &&& p.pid@ == s.pid@
    &&& p.nombre@ == s.nombre@
    &&& p.status@ == s.status@
    &&& p.memoria@ == formato_humano(s.memoria as nat)
}

/// Whether the process at position `a` of the probe's report comes before
/// the one at position `b` in a snapshot: it holds more memory, or as much
/// and was reported first.
pub open spec fn precede(procesos: Seq<ProcesoSonda>, a: int, b: int) -> bool {
    ||| procesos[a].memoria > procesos[b].memoria
    ||| (procesos[a].memoria == procesos[b].memoria && a < b)
}

/// Whether position `k` of the report occurs in `orden`.
pub open spec fn aparece(orden: Seq<usize>, k: int) -> bool {
    exists|i: int| 0 <= i < orden.len() && #[trigger] orden[i] == k
}

/// `orden` lists the positions of `procesos` by descending memory, equal
/// memories in the order of the report. Each entry is a position of the
/// report, each position occurs, and every entry precedes those after it.
pub open spec fn es_orden_estable(orden: Seq<usize>, procesos: Seq<ProcesoSonda>) -> bool {
    &&& orden.len() == procesos.len()
    &&& forall|i: int| 0 <= i < orden.len() ==> (#[trigger] orden[i]) < procesos.len()
    &&& forall|k: int| 0 <= k < procesos.len() ==> #[trigger] aparece(orden, k)
    &&& forall|i: int, j: int|
        0 <= i < j < orden.len() ==> precede(procesos, #[trigger] orden[i] as int, #[trigger] orden[j] as int)
}

/// The processes of a snapshot are the reported ones, each rendered, in
/// the stable order by descending memory.
pub open spec fn son_procesos_de(emitidos: Seq<Proceso>, procesos: Seq<ProcesoSonda>) -> bool {
    exists|orden: Seq<usize>|
        {
            &&& #[trigger] es_orden_estable(orden, procesos)
            &&& emitidos.len() == procesos.len()
            &&& forall|i: int|
                0 <= i < emitidos.len() ==> es_proceso_de(#[trigger] emitidos[i], procesos[orden[i] as int])
        }
}

/// The snapshot that belongs to one report of the probe.
pub open spec fn es_info_de(info: InfoEquipo, datos: DatosSonda) -> bool {
    &&& es_sistema_de(info.sistema_operativo, datos.sistema)
    &&& info.procesadores@.len() == datos.procesadores@.len()
    &&& forall|i: int|
        0 <= i < info.procesadores@.len() ==> es_procesador_de(
            #[trigger] info.procesadores@[i],
            datos.procesadores@[i],
        )
    &&& es_memoria_de(info.memoria, datos.memoria)
    &&& info.discos@.len() == datos.discos@.len()
    &&& forall|i: int|
        0 <= i < info.discos@.len() ==> es_disco_de(#[trigger] info.discos@[i], datos.discos@[i])
    &&& info.componentes@.len() == datos.componentes@.len()
    &&& forall|i: int|
        0 <= i < info.componentes@.len() ==> es_componente_de(
            #[trigger] info.componentes@[i],
            datos.componentes@[i],
        )
    &&& info.redes@.len() == datos.redes@.len()
    &&& forall|i: int|
        0 <= i < info.redes@.len() ==> es_red_de(#[trigger] info.redes@[i], datos.redes@[i])
    &&& son_procesos_de(info.procesos@, datos.procesos@)
}

fn texto_o_centinela(valor: &Option<String>, centinela: &str) -> (r: String)
    ensures
        r@ == texto_o(*valor, centinela@),
{
    match valor {
        Some(s) => s.clone(),
        None => String::from_str(centinela),
    }
}

fn con_grados(lectura: &String) -> (r: String)
    ensures
        r@ == lectura@ + grados(),
{
    let mut r = lectura.clone();
    r.append(" °C");
    r
}

/// The report of a snapshot that could not be encoded.
pub fn mensaje_error_serializacion(detalle: &str) -> (r: String)
    ensures
        r@ == prefijo_error_serializacion() + detalle@,
{
    let mut r = String::from_str("no se ha podido serializar el json por un error: ");
    r.append(detalle);
    r
}

/// The positions of the reported processes in the order in which a
/// snapshot lists them: by descending memory, equal memories in the order
/// of the report.
pub fn orden_por_memoria(procesos: &Vec<ProcesoSonda>) -> (orden: Vec<usize>)
    ensures
        es_orden_estable(orden@, procesos@),
{
    let n = procesos.len();
    let mut orden: Vec<usize> = Vec::new();
    let mut k: usize = 0;
    while k < n
        invariant
            n == procesos.len(),
            k <= n,
            orden.len() == k,
            forall|i: int| 0 <= i < k ==> (#[trigger] orden@[i]) < k,
            forall|x: int| 0 <= x < k ==> #[trigger] aparece(orden@, x),
            forall|i: int, j: int|
                0 <= i < j < k ==> precede(procesos@, #[trigger] orden@[i] as int, #[trigger] orden@[j] as int),
        decreases n - k,
    {
        let memoria = procesos[k].memoria;
        let mut pos: usize = 0;
        while pos < k && procesos[orden[pos]].memoria >= memoria
            invariant
                n == procesos.len(),
                k < n,
                orden.len() == k,
                pos <= k,
                memoria == procesos@[k as int].memoria,
                forall|i: int| 0 <= i < k ==> (#[trigger] orden@[i]) < k,
                forall|i: int|
                    0 <= i < pos ==> procesos@[(#[trigger] orden@[i]) as int].memoria >= memoria,
            decreases k - pos,
        {
            pos = pos + 1;
        }
        let ghost previo = orden@;
        orden.insert(pos, k);
        proof {
            assert forall|i: int| 0 <= i < k + 1 implies (#[trigger] orden@[i]) == (if i < pos {
                previo[i]
            } else if i == pos {
                k
            } else {
                previo[i - 1]
            }) by {}
            assert forall|x: int| 0 <= x < k + 1 implies #[trigger] aparece(orden@, x) by {
                if x == k {
                    assert(orden@[pos as int] == k);
                } else {
                    assert(aparece(previo, x));
                    let w = choose|i: int| 0 <= i < k && #[trigger] previo[i] == x;
                    if w < pos {
                        assert(orden@[w] == x);
                    } else {
                        assert(orden@[w + 1] == x);
                    }
                }
            }
            assert forall|i: int, j: int| 0 <= i < j < k + 1 implies precede(
                procesos@,
                #[trigger] orden@[i] as int,
                #[trigger] orden@[j] as int,
            ) by {
                if j < pos {
                    assert(precede(procesos@, previo[i] as int, previo[j] as int));
                } else if j == pos {
                    assert(procesos@[previo[i] as int].memoria >= memoria);
                    assert(previo[i] < k);
                } else if i < pos {
                    assert(precede(procesos@, previo[i] as int, previo[j - 1] as int));
                } else if i == pos {
                    assert(procesos@[previo[pos as int] as int].memoria < memoria);
                    if j - 1 > pos {
                        assert(precede(procesos@, previo[pos as int] as int, previo[j - 1] as int));
                    }
                } else {
                    assert(precede(procesos@, previo[i - 1] as int, previo[j - 1] as int));
                }
            }
        }
        k = k + 1;
    }
    orden
}

/// A snapshot lists its processes by descending memory, and processes of
/// equal memory in the order in which the probe reported them.
pub proof fn orden_estable_descendente(orden: Seq<usize>, procesos: Seq<ProcesoSonda>, i: int, j: int)
    requires
        es_orden_estable(orden, procesos),
        0 <= i < j < orden.len(),
    ensures
        procesos[orden[i] as int].memoria >= procesos[orden[j] as int].memoria,
        procesos[orden[i] as int].memoria == procesos[orden[j] as int].memoria ==> orden[i] < orden[j],
        orden[i] != orden[j],
{
    assert(precede(procesos, orden[i] as int, orden[j] as int));
}

proof fn orden_estable_prefijo(
    a: Seq<usize>,
    b: Seq<usize>,
    procesos: Seq<ProcesoSonda>,
    m: int,
)
    requires
        es_orden_estable(a, procesos),
        es_orden_estable(b, procesos),
        0 <= m <= a.len(),
    ensures
        forall|i: int| 0 <= i < m ==> a[i] == b[i],
    decreases m,
{
    if m > 0 {
        orden_estable_prefijo(a, b, procesos, m - 1);
        let i = m - 1;
        if a[i] != b[i] {
            assert(aparece(b, a[i] as int));
            let j = choose|j: int| 0 <= j < b.len() && #[trigger] b[j] == a[i] as int;
            assert(aparece(a, b[i] as int));
            let l = choose|l: int| 0 <= l < a.len() && #[trigger] a[l] == b[i] as int;
            if j < i {
                assert(precede(procesos, a[j] as int, a[i] as int));
            } else if l < i {
                assert(precede(procesos, b[l] as int, b[i] as int));
            } else {
                assert(precede(procesos, b[i] as int, b[j] as int));
                assert(precede(procesos, a[i] as int, a[l] as int));
            }
            assert(false);
        }
    }
}

/// The order of a snapshot's processes is determined by the report: two
/// stable orders of the same report are the same.
pub proof fn orden_estable_unico(a: Seq<usize>, b: Seq<usize>, procesos: Seq<ProcesoSonda>)
    requires
        es_orden_estable(a, procesos),
        es_orden_estable(b, procesos),
    ensures
        a == b,
{
    orden_estable_prefijo(a, b, procesos, a.len() as int);
    assert(a =~= b);
}

/// The processes of a snapshot: the reported ones, each rendered, by
/// descending memory, equal memories in the order of the report.
pub fn ordenar_procesos(procesos: &Vec<ProcesoSonda>) -> (emitidos: Vec<Proceso>)
    ensures
        son_procesos_de(emitidos@, procesos@),
{
    let orden = orden_por_memoria(procesos);
    let mut emitidos: Vec<Proceso> = Vec::new();
    let mut i: usize = 0;
    while i < orden.len()
        invariant
            es_orden_estable(orden@, procesos@),
            i <= orden.len(),
            emitidos.len() == i,
            forall|j: int|
                0 <= j < i ==> es_proceso_de(#[trigger] emitidos@[j], procesos@[orden@[j] as int]),
        decreases orden.len() - i,
    {
        let s = &procesos[orden[i]];
        emitidos.push(
            Proceso {
                pid: s.pid.clone(),
                nombre: s.nombre.clone(),
                status: s.status.clone(),
                memoria: bytes_a_formato_humano(s.memoria),
            },
        );
        i = i + 1;
    }
    emitidos
}

fn sistema_de(s: &SistemaSonda) -> (so: SistemaOperativo)
    ensures
        es_sistema_de(so, *s),
{
    SistemaOperativo {
        nombre: texto_o_centinela(&s.nombre, "unknown"),
        version: texto_o_centinela(&s.version, "unknown"),
        version_kernel: texto_o_centinela(&s.version_kernel, "unknown"),
    }
}

fn memoria_de(s: &MemoriaSonda) -> (m: Memoria)
    ensures
        es_memoria_de(m, *s),
{
    Memoria {
        memoria_total: bytes_a_formato_humano(s.total),
        memoria_usada: bytes_a_formato_humano(s.usada),
        memoria_swap_total: bytes_a_formato_humano(s.swap_total),
        memoria_swap_usada: bytes_a_formato_humano(s.swap_usada),
    }
}

fn procesadores_de(sondeados: &Vec<ProcesadorSonda>) -> (r: Vec<Procesador>)
    ensures
        r@.len() == sondeados@.len(),
        forall|i: int| 0 <= i < r@.len() ==> es_procesador_de(#[trigger] r@[i], sondeados@[i]),
{
    let mut r: Vec<Procesador> = Vec::new();
    let mut i: usize = 0;
    while i < sondeados.len()
        invariant
            i <= sondeados.len(),
            r.len() == i,
            forall|j: int| 0 <= j < i ==> es_procesador_de(#[trigger] r@[j], sondeados@[j]),
        decreases sondeados.len() - i,
    {
        let s = &sondeados[i];
        r.push(
            Procesador { nombre: s.nombre.clone(), marca: s.marca.clone(), frecuencia: s.frecuencia },
        );
        i = i + 1;
    }
    r
}

fn discos_de(sondeados: &Vec<DiscoSonda>) -> (r: Vec<Disco>)
    ensures
        r@.len() == sondeados@.len(),
        forall|i: int| 0 <= i < r@.len() ==> es_disco_de(#[trigger] r@[i], sondeados@[i]),
{
    let mut r: Vec<Disco> = Vec::new();
    let mut i: usize = 0;
    while i < sondeados.len()
        invariant
            i <= sondeados.len(),
            r.len() == i,
            forall|j: int| 0 <= j < i ==> es_disco_de(#[trigger] r@[j], sondeados@[j]),
        decreases sondeados.len() - i,
    {
        let s = &sondeados[i];
        r.push(
            Disco {
                tipo: s.tipo.clone(),
                nombre: s.nombre.clone(),
                sistema: s.sistema.clone(),
                punto_montado: s.punto_montado.clone(),
                capacidad: bytes_a_formato_humano(s.capacidad),
                espacio: bytes_a_formato_humano(s.espacio),
                extraible: s.extraible,
            },
        );
        i = i + 1;
    }
    r
}

fn componente_de(s: &ComponenteSonda) -> (c: Componente)
    ensures
        es_componente_de(c, *s),
{
    let temperatura_critica = match &s.temperatura_critica {
        Some(t) => con_grados(t),
        None => String::from_str("unknown"),
    };
    Componente {
        etiqueta: s.etiqueta.clone(),
        temperatura: con_grados(&s.temperatura),
        temperatura_maxima: con_grados(&s.temperatura_maxima),
        temperatura_critica,
    }
}

fn componentes_de(sondeados: &Vec<ComponenteSonda>) -> (r: Vec<Componente>)
    ensures
        r@.len() == sondeados@.len(),
        forall|i: int| 0 <= i < r@.len() ==> es_componente_de(#[trigger] r@[i], sondeados@[i]),
{
    let mut r: Vec<Componente> = Vec::new();
    let mut i: usize = 0;
    while i < sondeados.len()
        invariant
            i <= sondeados.len(),
            r.len() == i,
            forall|j: int| 0 <= j < i ==> es_componente_de(#[trigger] r@[j], sondeados@[j]),
        decreases sondeados.len() - i,
    {
        r.push(componente_de(&sondeados[i]));
        i = i + 1;
    }
    r
}

fn redes_de(sondeadas: &Vec<RedSonda>) -> (r: Vec<Red>)
    ensures
        r@.len() == sondeadas@.len(),
        forall|i: int| 0 <= i < r@.len() ==> es_red_de(#[trigger] r@[i], sondeadas@[i]),
{
    let mut r: Vec<Red> = Vec::new();
    let mut i: usize = 0;
    while i < sondeadas.len()
        invariant
            i <= sondeadas.len(),
            r.len() == i,
            forall|j: int| 0 <= j < i ==> es_red_de(#[trigger] r@[j], sondeadas@[j]),
        decreases sondeadas.len() - i,
    {
        let s = &sondeadas[i];
        r.push(
            Red {
                nombre: s.nombre.clone(),
                recibido: bytes_a_formato_humano(s.recibido),
                transmitido: bytes_a_formato_humano(s.transmitido),
            },
        );
        i = i + 1;
    }
    r
}

/// Builds the snapshot of one report of the probe. Every facet is mapped;
/// what the probe did not report becomes its sentinel, every byte count is
/// rendered, and the processes are listed by descending memory. No report
/// is refused.
pub fn construir_info_equipo(datos: &DatosSonda) -> (info: InfoEquipo)
    ensures
        es_info_de(info, *datos),
{
    InfoEquipo {
        sistema_operativo: sistema_de(&datos.sistema),
        procesadores: procesadores_de(&datos.procesadores),
        memoria: memoria_de(&datos.memoria),
        discos: discos_de(&datos.discos),
        componentes: componentes_de(&datos.componentes),
        redes: redes_de(&datos.redes),
        procesos: ordenar_procesos(&datos.procesos),
    }
}

/// A report without a kernel version still yields a snapshot, and that
/// snapshot names the kernel version by the sentinel.
pub proof fn kernel_ausente_es_centinela(info: InfoEquipo, datos: DatosSonda)
    requires
        es_info_de(info, datos),
        datos.sistema.version_kernel.is_none(),
    ensures
        info.sistema_operativo.version_kernel@ == desconocido(),
{
}

} // verus!
